//! CCC temp batch capture: which files are taken, burst detection, the 120 s duplicate
//! window, the batch counters, and the cause recorded when a file cannot be claimed.
//! Times are milliseconds on a monotonic clock; the caller does the file work.
use vstd::prelude::*;
use crate::text::{eq_ignore_ascii_case, eq_ignore_ascii_case_str, eq_str, views};

verus! {

/// A file seen again within this window is a duplicate.
pub const DEDUPE_WINDOW_MS: u64 = 120_000;

/// Detections closer than this form a burst.
pub const BURST_DETECTION_WINDOW_MS: u64 = 3_000;

/// A burst lasts this long after its latest detection.
pub const BURST_HOLD_MS: u64 = 8_000;

/// How long a debug directory snapshot runs.
pub const DEBUG_SNAPSHOT_MS: u64 = 10_000;

/// Office files smaller than this are not claimed.
pub const MIN_OFFICE_BYTES: u64 = 64;

#[derive(Clone, Copy, Debug, PartialEq, Eq, Structural)]
pub enum CccEligibility {
    UnsupportedExtension,
    TooSmall,
    Pdf,
    Office,
}

pub open spec fn is_office_ext(ext: Seq<char>) -> bool {
    ext == "doc"@ || ext == "docx"@ || ext == "rtf"@
}

/// What happens to a file in the CCC temp folder, from its lower-cased extension and
/// size: PDFs are taken at any size, Word/RTF files from 64 bytes, others never.
pub open spec fn eligibility(ext: Seq<char>, size: u64) -> CccEligibility {
    if ext == "pdf"@ {
        CccEligibility::Pdf
    } else if is_office_ext(ext) {
        if size < MIN_OFFICE_BYTES {
            CccEligibility::TooSmall
        } else {
            CccEligibility::Office
        }
    } else {
        CccEligibility::UnsupportedExtension
    }
}

pub fn ccc_eligibility(ext_lower: &str, size: u64) -> (r: CccEligibility)
    ensures
        r == eligibility(ext_lower@, size),
{
    let v = crate::text::chars_of(ext_lower);
    let e = v.as_slice();
    if eq_str(e, "pdf") {
        CccEligibility::Pdf
    } else if eq_str(e, "doc") || eq_str(e, "docx") || eq_str(e, "rtf") {
        if size < MIN_OFFICE_BYTES {
            CccEligibility::TooSmall
        } else {
            CccEligibility::Office
        }
    } else {
        CccEligibility::UnsupportedExtension
    }
}

/// Why a claim failed: another pipeline holds the file (a suppressed duplicate), the file
/// vanished, it was locked (`Could not claim`), or another error.
pub open spec fn failure_reason(path_exists: bool, err: Seq<char>) -> Seq<char> {
    if err == crate::services::converter::DUPLICATE_OFFICE_PIPELINE_SKIPPED@ {
        "duplicate_suppressed"@
    } else if !path_exists {
        "file_disappeared_before_claim"@
    } else if crate::text::has_sub(err, "Could not claim"@) {
        "move_failed_locked"@
    } else {
        "processing_error"@
    }
}

pub fn claim_failure_reason(path_exists: bool, err: &str) -> (r: String)
    ensures
        r@ == failure_reason(path_exists, err@),
{
    let v = crate::text::chars_of(err);
    if eq_str(v.as_slice(), crate::services::converter::DUPLICATE_OFFICE_PIPELINE_SKIPPED) {
        return String::from_str("duplicate_suppressed");
    }
    if !path_exists {
        return String::from_str("file_disappeared_before_claim");
    }
    if crate::text::contains_str(v.as_slice(), "Could not claim") {
        String::from_str("move_failed_locked")
    } else {
        String::from_str("processing_error")
    }
}

/// After a failed Office claim the user is asked to print the document instead when the
/// file was locked, the print prompt is enabled, and the file is still there.
pub fn office_prompt_after_claim_failure(reason: &str, prompt_fallback: bool, is_file: bool) -> (b: bool)
    ensures
        b == (reason@ == "move_failed_locked"@ && prompt_fallback && is_file),
{
    let v = crate::text::chars_of(reason);
    eq_str(v.as_slice(), "move_failed_locked") && prompt_fallback && is_file
}

/// The sweep does not descend into `.uce_staging` folders (any letter case).
pub fn sweep_skips_dir(name: &str) -> (b: bool)
    ensures
        b == eq_ignore_ascii_case(name@, ".uce_staging"@),
{
    let v = crate::text::chars_of(name);
    eq_ignore_ascii_case_str(v.as_slice(), ".uce_staging")
}

/// The tag of a sweep: `burst_sweeper` during a burst or while CCC shows its printing
/// title, else `interval_sweeper`.
pub fn sweeper_tag(burst_active: bool, ccc_printing_title_active: bool) -> (r: &'static str)
    ensures
        r@ == if burst_active || ccc_printing_title_active {
            "burst_sweeper"@
        } else {
            "interval_sweeper"@
        },
{
    if burst_active || ccc_printing_title_active {
        "burst_sweeper"
    } else {
        "interval_sweeper"
    }
}

// ---------------------------------------------------------------------------
// Batch state
// ---------------------------------------------------------------------------

pub struct CccBatchState {
    /// Detection times within the burst window, oldest first.
    pub detection_window: Vec<u64>,
    pub burst_until: Option<u64>,
    pub debug_snap_until: Option<u64>,
    pub debug_snap_spawned_for_generation: bool,
    pub seen_basenames: Vec<String>,
    pub moved_basenames: Vec<String>,
    pub processed_basenames: Vec<String>,
    pub uploaded_basenames: Vec<String>,
    /// Miss reasons with their counts.
    pub reason_counts: Vec<(String, u32)>,
    /// Fingerprints taken recently, with when, oldest first.
    pub dedupe: Vec<(String, u64)>,
}

pub open spec fn distinct(v: Seq<Seq<char>>) -> bool {
    forall|i: int, j: int| 0 <= i < j < v.len() ==> #[trigger] v[i] != #[trigger] v[j]
}

pub open spec fn reason_keys(v: Seq<(String, u32)>) -> Seq<Seq<char>> {
    v.map_values(|p: (String, u32)| p.0@)
}

pub open spec fn dedupe_view(v: Seq<(String, u64)>) -> Seq<(Seq<char>, u64)> {
    v.map_values(|p: (String, u64)| (p.0@, p.1))
}

/// `Instant::duration_since` in milliseconds: 0 when `earlier` is later.
pub open spec fn elapsed(now: u64, earlier: u64) -> u64 {
    if now >= earlier {
        (now - earlier) as u64
    } else {
        0
    }
}

pub fn elapsed_ms(now: u64, earlier: u64) -> (r: u64)
    ensures
        r == elapsed(now, earlier),
{
    if now >= earlier {
        now - earlier
    } else {
        0
    }
}

/// The duplicate window from the front: entries older than 120 s dropped.
pub open spec fn pruned(d: Seq<(Seq<char>, u64)>, now: u64) -> Seq<(Seq<char>, u64)>
    decreases d.len(),
{
    if d.len() > 0 && elapsed(now, d[0].1) > DEDUPE_WINDOW_MS {
        pruned(d.drop_first(), now)
    } else {
        d
    }
}

pub open spec fn has_fp(d: Seq<(Seq<char>, u64)>, fp: Seq<char>) -> bool {
    exists|i: int| 0 <= i < d.len() && #[trigger] d[i].0 == fp
}

/// Detections within 3 s of `now`, from the front.
pub open spec fn recent_detections(w: Seq<u64>, now: u64) -> Seq<u64>
    decreases w.len(),
{
    if w.len() > 0 && elapsed(now, w[0]) > BURST_DETECTION_WINDOW_MS {
        recent_detections(w.drop_first(), now)
    } else {
        w
    }
}

/// `v` with `x` added unless present.
pub open spec fn set_add(v: Seq<Seq<char>>, x: Seq<char>) -> Seq<Seq<char>> {
    if v.contains(x) {
        v
    } else {
        v.push(x)
    }
}

/// A fingerprint recorded at `t` is reported as a duplicate at any `now` within the
/// 120 s window after `t`, whatever else the window holds.
pub proof fn law_recorded_fingerprint_is_duplicate(d: Seq<(Seq<char>, u64)>, fp: Seq<char>, t: u64, now: u64)
    requires
        elapsed(now, t) <= DEDUPE_WINDOW_MS,
    ensures
        has_fp(pruned(d.push((fp, t)), now), fp),
    decreases d.len(),
{
    let e = d.push((fp, t));
    if d.len() > 0 && elapsed(now, d[0].1) > DEDUPE_WINDOW_MS {
        assert(e.drop_first() =~= d.drop_first().push((fp, t)));
        law_recorded_fingerprint_is_duplicate(d.drop_first(), fp, t, now);
    } else {
        assert(e[d.len() as int].0 == fp);
    }
}

impl CccBatchState {
    pub open spec fn wf(&self) -> bool {
        &&& distinct(views(self.seen_basenames@))
        &&& distinct(views(self.moved_basenames@))
        &&& distinct(views(self.processed_basenames@))
        &&& distinct(views(self.uploaded_basenames@))
        &&& distinct(reason_keys(self.reason_counts@))
    }

    pub fn new() -> (r: Self)
        ensures
            r.wf(),
            r.detection_window@.len() == 0,
            r.burst_until is None,
            r.debug_snap_until is None,
            !r.debug_snap_spawned_for_generation,
            r.seen_basenames@.len() == 0,
            r.moved_basenames@.len() == 0,
            r.processed_basenames@.len() == 0,
            r.uploaded_basenames@.len() == 0,
            r.reason_counts@.len() == 0,
            r.dedupe@.len() == 0,
    {
        CccBatchState {
            detection_window: Vec::new(),
            burst_until: None,
            debug_snap_until: None,
            debug_snap_spawned_for_generation: false,
            seen_basenames: Vec::new(),
            moved_basenames: Vec::new(),
            processed_basenames: Vec::new(),
            uploaded_basenames: Vec::new(),
            reason_counts: Vec::new(),
            dedupe: Vec::new(),
        }
    }

    /// Drops duplicate-window entries older than 120 s.
    fn prune(&mut self, now: u64)
        ensures
            dedupe_view(final(self).dedupe@) == pruned(dedupe_view(old(self).dedupe@), now),
            final(self).detection_window == old(self).detection_window,
            final(self).burst_until == old(self).burst_until,
            final(self).debug_snap_until == old(self).debug_snap_until,
            final(self).debug_snap_spawned_for_generation == old(
                self,
            ).debug_snap_spawned_for_generation,
            final(self).seen_basenames == old(self).seen_basenames,
            final(self).moved_basenames == old(self).moved_basenames,
            final(self).processed_basenames == old(self).processed_basenames,
            final(self).uploaded_basenames == old(self).uploaded_basenames,
            final(self).reason_counts == old(self).reason_counts,
    {
        while self.dedupe.len() > 0 && elapsed_ms(now, self.dedupe[0].1) > DEDUPE_WINDOW_MS
            invariant
                pruned(dedupe_view(self.dedupe@), now) == pruned(dedupe_view(old(self).dedupe@), now),
                self.detection_window == old(self).detection_window,
                self.burst_until == old(self).burst_until,
                self.debug_snap_until == old(self).debug_snap_until,
                self.debug_snap_spawned_for_generation == old(self).debug_snap_spawned_for_generation,
                self.seen_basenames == old(self).seen_basenames,
                self.moved_basenames == old(self).moved_basenames,
                self.processed_basenames == old(self).processed_basenames,
                self.uploaded_basenames == old(self).uploaded_basenames,
                self.reason_counts == old(self).reason_counts,
            decreases self.dedupe@.len(),
        {
            let ghost before = dedupe_view(self.dedupe@);
            self.dedupe.remove(0);
            assert(dedupe_view(self.dedupe@) =~= before.drop_first());
        }
    }

    /// Whether a fingerprint was taken within the last 120 s (older entries are dropped).
    pub fn is_dup(&mut self, fp: &str, now: u64) -> (b: bool)
        ensures
            dedupe_view(final(self).dedupe@) == pruned(dedupe_view(old(self).dedupe@), now),
            b == has_fp(pruned(dedupe_view(old(self).dedupe@), now), fp@),
            final(self).detection_window == old(self).detection_window,
            final(self).burst_until == old(self).burst_until,
            final(self).debug_snap_until == old(self).debug_snap_until,
            final(self).debug_snap_spawned_for_generation == old(
                self,
            ).debug_snap_spawned_for_generation,
            final(self).seen_basenames == old(self).seen_basenames,
            final(self).moved_basenames == old(self).moved_basenames,
            final(self).processed_basenames == old(self).processed_basenames,
            final(self).uploaded_basenames == old(self).uploaded_basenames,
            final(self).reason_counts == old(self).reason_counts,
    {
        self.prune(now);
        let ghost after = *self;
        let f = crate::text::chars_of(fp);
        let mut i: usize = 0;
        while i < self.dedupe.len()
            invariant
                i <= self.dedupe@.len(),
                *self == after,
                dedupe_view(after.dedupe@) == pruned(dedupe_view(old(self).dedupe@), now),
                after.detection_window == old(self).detection_window,
                after.burst_until == old(self).burst_until,
                after.debug_snap_until == old(self).debug_snap_until,
                after.debug_snap_spawned_for_generation == old(self).debug_snap_spawned_for_generation,
                after.seen_basenames == old(self).seen_basenames,
                after.moved_basenames == old(self).moved_basenames,
                after.processed_basenames == old(self).processed_basenames,
                after.uploaded_basenames == old(self).uploaded_basenames,
                after.reason_counts == old(self).reason_counts,
                f@ == fp@,
                forall|j: int| 0 <= j < i ==> #[trigger] dedupe_view(self.dedupe@)[j].0 != fp@,
            decreases self.dedupe@.len() - i,
        {
            let k = crate::text::chars_of(self.dedupe[i].0.as_str());
            if crate::text::chars_eq(k.as_slice(), f.as_slice()) {
                assert(dedupe_view(self.dedupe@)[i as int].0 == fp@);
                return true;
            }
            i = i + 1;
        }
        false
    }

    /// Records a fingerprint as taken now (older entries are dropped).
    pub fn insert_dedupe(&mut self, fp: String, now: u64)
        ensures
            dedupe_view(final(self).dedupe@) == pruned(dedupe_view(old(self).dedupe@), now).push(
                (fp@, now),
            ),
            final(self).detection_window == old(self).detection_window,
            final(self).burst_until == old(self).burst_until,
            final(self).debug_snap_until == old(self).debug_snap_until,
            final(self).debug_snap_spawned_for_generation == old(
                self,
            ).debug_snap_spawned_for_generation,
            final(self).seen_basenames == old(self).seen_basenames,
            final(self).moved_basenames == old(self).moved_basenames,
            final(self).processed_basenames == old(self).processed_basenames,
            final(self).uploaded_basenames == old(self).uploaded_basenames,
            final(self).reason_counts == old(self).reason_counts,
    {
        self.prune(now);
        let ghost before = dedupe_view(self.dedupe@);
        let ghost fv = fp@;
        self.dedupe.push((fp, now));
        assert(dedupe_view(self.dedupe@) =~= before.push((fv, now)));
    }

    /// A file that will be taken was detected: its base name is seen; detections within
    /// 3 s are kept; two or more of them start (or a running burst extends) a burst that
    /// lasts 8 s from now. With `debug_burst`, a 10 s debug snapshot generation starts
    /// unless one is open; returns whether a snapshot should be started now.
    pub fn on_eligible_file_detected(&mut self, basename: &str, now: u64, debug_burst: bool) -> (spawn_snapshot: bool)
        requires
            old(self).wf(),
            now + BURST_HOLD_MS <= u64::MAX,
            now + DEBUG_SNAPSHOT_MS <= u64::MAX,
        ensures
            final(self).wf(),
            views(final(self).seen_basenames@) == set_add(views(old(self).seen_basenames@), basename@),
            final(self).detection_window@ == recent_detections(old(self).detection_window@.push(now), now),
            final(self).burst_until == if final(self).detection_window@.len() >= 2 || (match old(
                self,
            ).burst_until {
                Some(u) => u > now,
                None => false,
            }) {
                Some((now + BURST_HOLD_MS) as u64)
            } else {
                old(self).burst_until
            },
            debug_burst ==> final(self).debug_snap_until == if old(self).debug_snap_until is None {
                Some((now + DEBUG_SNAPSHOT_MS) as u64)
            } else {
                old(self).debug_snap_until
            },
            !debug_burst ==> final(self).debug_snap_until == old(self).debug_snap_until,
            spawn_snapshot == (debug_burst && (old(self).debug_snap_until is None
                || !old(self).debug_snap_spawned_for_generation)),
            final(self).debug_snap_spawned_for_generation == (if debug_burst {
                true
            } else {
                old(self).debug_snap_spawned_for_generation
            }),
            final(self).dedupe == old(self).dedupe,
            final(self).moved_basenames == old(self).moved_basenames,
            final(self).processed_basenames == old(self).processed_basenames,
            final(self).uploaded_basenames == old(self).uploaded_basenames,
            final(self).reason_counts == old(self).reason_counts,
    {
        add_name(&mut self.seen_basenames, basename);
        let ghost w0 = self.detection_window@.push(now);
        self.detection_window.push(now);
        let ghost pre = *self;
        while self.detection_window.len() > 0 && elapsed_ms(now, self.detection_window[0])
            > BURST_DETECTION_WINDOW_MS
            invariant
                recent_detections(self.detection_window@, now) == recent_detections(w0, now),
                self.seen_basenames == pre.seen_basenames,
                self.moved_basenames == pre.moved_basenames,
                self.processed_basenames == pre.processed_basenames,
                self.uploaded_basenames == pre.uploaded_basenames,
                self.reason_counts == pre.reason_counts,
                self.dedupe == pre.dedupe,
                self.burst_until == pre.burst_until,
                self.debug_snap_until == pre.debug_snap_until,
                self.debug_snap_spawned_for_generation == pre.debug_snap_spawned_for_generation,
            decreases self.detection_window@.len(),
        {
            let ghost before = self.detection_window@;
            self.detection_window.remove(0);
            assert(self.detection_window@ =~= before.drop_first());
        }
        let was_running = match self.burst_until {
            Some(u) => u > now,
            None => false,
        };
        if self.detection_window.len() >= 2 || was_running {
            self.burst_until = Some(now + BURST_HOLD_MS);
        }
        let mut spawn = false;
        if debug_burst {
            if self.debug_snap_until.is_none() {
                self.debug_snap_until = Some(now + DEBUG_SNAPSHOT_MS);
                self.debug_snap_spawned_for_generation = false;
            }
            if !self.debug_snap_spawned_for_generation {
                self.debug_snap_spawned_for_generation = true;
                spawn = true;
            }
        }
        spawn
    }

    /// Whether a burst is running at `now`.
    pub fn burst_active(&self, now: u64) -> (b: bool)
        ensures
            b == match self.burst_until {
                Some(u) => u > now,
                None => false,
            },
    {
        match self.burst_until {
            Some(u) => u > now,
            None => false,
        }
    }

    /// A burst has ended after files were seen: the summary is due and the batch resets.
    pub fn summary_due(&self, now: u64) -> (b: bool)
        ensures
            b == match self.burst_until {
                Some(u) => u <= now && self.seen_basenames@.len() > 0,
                None => false,
            },
    {
        match self.burst_until {
            Some(u) => u <= now && self.seen_basenames.len() > 0,
            None => false,
        }
    }

    /// Counts for the batch summary: seen, moved, processed, uploaded, and missed (seen
    /// less uploaded, not below 0).
    pub fn summary_counts(&self) -> (r: (usize, usize, usize, usize, usize))
        ensures
            r.0 == self.seen_basenames@.len(),
            r.1 == self.moved_basenames@.len(),
            r.2 == self.processed_basenames@.len(),
            r.3 == self.uploaded_basenames@.len(),
            r.4 == if r.0 >= r.3 {
                (r.0 - r.3) as usize
            } else {
                0
            },
    {
        let seen = self.seen_basenames.len();
        let uploaded = self.uploaded_basenames.len();
        (
            seen,
            self.moved_basenames.len(),
            self.processed_basenames.len(),
            uploaded,
            seen.saturating_sub(uploaded),
        )
    }

    /// After the summary the whole batch starts over, duplicate window included.
    pub fn reset(&mut self)
        ensures
            final(self).wf(),
            final(self).detection_window@.len() == 0,
            final(self).burst_until is None,
            final(self).debug_snap_until is None,
            !final(self).debug_snap_spawned_for_generation,
            final(self).seen_basenames@.len() == 0,
            final(self).moved_basenames@.len() == 0,
            final(self).processed_basenames@.len() == 0,
            final(self).uploaded_basenames@.len() == 0,
            final(self).reason_counts@.len() == 0,
            final(self).dedupe@.len() == 0,
    {
        *self = CccBatchState::new();
    }

    pub fn note_moved(&mut self, basename: &str)
        requires
            old(self).wf(),
        ensures
            final(self).wf(),
            views(final(self).moved_basenames@) == set_add(views(old(self).moved_basenames@), basename@),
            final(self).detection_window == old(self).detection_window,
            final(self).burst_until == old(self).burst_until,
            final(self).debug_snap_until == old(self).debug_snap_until,
            final(self).debug_snap_spawned_for_generation == old(self).debug_snap_spawned_for_generation,
            final(self).seen_basenames == old(self).seen_basenames,
            final(self).processed_basenames == old(self).processed_basenames,
            final(self).uploaded_basenames == old(self).uploaded_basenames,
            final(self).reason_counts == old(self).reason_counts,
            final(self).dedupe == old(self).dedupe,
    {
        add_name(&mut self.moved_basenames, basename);
    }

    pub fn note_processed(&mut self, basename: &str)
        requires
            old(self).wf(),
        ensures
            final(self).wf(),
            views(final(self).processed_basenames@) == set_add(
                views(old(self).processed_basenames@),
                basename@,
            ),
            final(self).detection_window == old(self).detection_window,
            final(self).burst_until == old(self).burst_until,
            final(self).debug_snap_until == old(self).debug_snap_until,
            final(self).debug_snap_spawned_for_generation == old(self).debug_snap_spawned_for_generation,
            final(self).seen_basenames == old(self).seen_basenames,
            final(self).moved_basenames == old(self).moved_basenames,
            final(self).uploaded_basenames == old(self).uploaded_basenames,
            final(self).reason_counts == old(self).reason_counts,
            final(self).dedupe == old(self).dedupe,
    {
        add_name(&mut self.processed_basenames, basename);
    }

    /// One more miss for `reason` (the count wraps at `u32::MAX`).
    pub fn note_miss_reason(&mut self, reason: &str)
        requires
            old(self).wf(),
        ensures
            final(self).wf(),
            reason_keys(final(self).reason_counts@) == set_add(
                reason_keys(old(self).reason_counts@),
                reason@,
            ),
            counts_after(old(self).reason_counts@, final(self).reason_counts@, reason@),
            final(self).detection_window == old(self).detection_window,
            final(self).burst_until == old(self).burst_until,
            final(self).debug_snap_until == old(self).debug_snap_until,
            final(self).debug_snap_spawned_for_generation == old(self).debug_snap_spawned_for_generation,
            final(self).seen_basenames == old(self).seen_basenames,
            final(self).moved_basenames == old(self).moved_basenames,
            final(self).processed_basenames == old(self).processed_basenames,
            final(self).uploaded_basenames == old(self).uploaded_basenames,
            final(self).dedupe == old(self).dedupe,
    {
        let r = crate::text::chars_of(reason);
        let ghost keys0 = reason_keys(self.reason_counts@);
        let mut i: usize = 0;
        while i < self.reason_counts.len()
            invariant
                i <= self.reason_counts@.len(),
                r@ == reason@,
                *self == *old(self),
                old(self).wf(),
                forall|j: int| 0 <= j < i ==> #[trigger] reason_keys(self.reason_counts@)[j] != reason@,
            decreases self.reason_counts@.len() - i,
        {
            let k = crate::text::chars_of(self.reason_counts[i].0.as_str());
            if crate::text::chars_eq(k.as_slice(), r.as_slice()) {
                let ghost v0 = self.reason_counts@;
                let name = self.reason_counts[i].0.clone();
                let c = self.reason_counts[i].1.wrapping_add(1);
                self.reason_counts.set(i, (name, c));
                assert(reason_keys(self.reason_counts@) =~= reason_keys(v0));
                assert(reason_keys(v0)[i as int] == reason@);
                assert(reason_keys(v0).contains(reason@));
                proof {
                    assert forall|a: int| 0 <= a < self.reason_counts@.len() && a != i implies #[trigger] self.reason_counts@[a].0@ != reason@ by {
                        if a < i {
                            assert(reason_keys(v0)[a] != reason@);
                        } else {
                            assert(reason_keys(v0)[a] != reason_keys(v0)[i as int]);
                        }
                    }
                }
                return;
            }
            i = i + 1;
        }
        let ghost v0 = self.reason_counts@;
        self.reason_counts.push((String::from_str(reason), 1));
        assert(reason_keys(self.reason_counts@) =~= reason_keys(v0).push(reason@));
        assert forall|a: int| 0 <= a < v0.len() implies self.reason_counts@[a].0@ != reason@ by {
            assert(self.reason_counts@[a] == v0[a]);
            assert(reason_keys(v0)[a] != reason@);
        }
        assert(!reason_keys(v0).contains(reason@)) by {
            if reason_keys(v0).contains(reason@) {
                let j = choose|j: int| 0 <= j < reason_keys(v0).len() && reason_keys(v0)[j] == reason@;
                assert(reason_keys(v0)[j] != reason@);
            }
        }
    }

    /// The web side finished an upload: success records the file's lower-cased base
    /// name as uploaded, failure counts an `upload_failed` miss.
    pub fn note_upload_for_batch(&mut self, path: &str, success: bool)
        requires
            old(self).wf(),
        ensures
            final(self).wf(),
            success ==> views(final(self).uploaded_basenames@) == set_add(
                views(old(self).uploaded_basenames@),
                crate::text::unicode_lower(upload_name(path@)),
            ),
            !success ==> reason_keys(final(self).reason_counts@) == set_add(
                reason_keys(old(self).reason_counts@),
                "upload_failed"@,
            ),
            final(self).seen_basenames == old(self).seen_basenames,
            final(self).dedupe == old(self).dedupe,
    {
        if success {
            let pv = crate::text::chars_of(path);
            let name = match crate::paths::file_name_exec(pv.as_slice()) {
                Some(n) => crate::text::string_of(n.as_slice()),
                None => String::from_str("unknown"),
            };
            let base = crate::text::str_to_lowercase(name.as_str());
            add_name(&mut self.uploaded_basenames, base.as_str());
        } else {
            self.note_miss_reason("upload_failed");
        }
    }
}

/// The first step for a file detected in the CCC temp folder.
#[derive(Clone, Copy, Debug, PartialEq, Eq, Structural)]
pub enum CccIntake {
    /// Not a PDF or Word/RTF file (a miss is counted).
    UnsupportedExtension,
    /// A Word/RTF file under 64 bytes.
    TooSmall,
    /// Its metadata could not be read.
    NoMetadata,
    /// Taken within the last 120 s (a miss is counted).
    Duplicate,
    /// Claim the PDF into staging.
    ClaimPdf,
    /// Route the Word/RTF document (printer first, else claim and convert).
    ClaimOffice,
}

impl CccBatchState {
    /// One file detected in the CCC temp folder, from its lower-cased extension, its size,
    /// its fingerprint (none when its metadata could not be read), its base name and the
    /// time: unsupported and too small files stop here; an eligible one is counted as a
    /// detection (bursts, debug snapshots), then stops without a fingerprint or as a recent
    /// duplicate, else is to be claimed. The second result says whether a debug snapshot
    /// starts now.
    pub fn ccc_intake(
        &mut self,
        ext_lower: &str,
        size: u64,
        fp: Option<&str>,
        basename: &str,
        now: u64,
        debug_burst: bool,
    ) -> (r: (CccIntake, bool))
        requires
            old(self).wf(),
            now + BURST_HOLD_MS <= u64::MAX,
            now + DEBUG_SNAPSHOT_MS <= u64::MAX,
        ensures
            final(self).wf(),
            match eligibility(ext_lower@, size) {
                CccEligibility::UnsupportedExtension => {
                    &&& r == (CccIntake::UnsupportedExtension, false)
                    &&& reason_keys(final(self).reason_counts@) == set_add(
                        reason_keys(old(self).reason_counts@),
                        "unsupported_extension"@,
                    )
                    &&& counts_after(
                        old(self).reason_counts@,
                        final(self).reason_counts@,
                        "unsupported_extension"@,
                    )
                    &&& final(self).seen_basenames == old(self).seen_basenames
                    &&& final(self).dedupe == old(self).dedupe
                },
                CccEligibility::TooSmall => r == (CccIntake::TooSmall, false) && *final(self) == *old(
                    self,
                ),
                e => {
                    &&& views(final(self).seen_basenames@) == set_add(
                        views(old(self).seen_basenames@),
                        basename@,
                    )
                    &&& r.1 == (debug_burst && (old(self).debug_snap_until is None
                        || !old(self).debug_snap_spawned_for_generation))
                    &&& match fp {
                        None => r.0 == CccIntake::NoMetadata && final(self).reason_counts == old(
                            self,
                        ).reason_counts,
                        Some(f) => if has_fp(pruned(dedupe_view(old(self).dedupe@), now), f@) {
                            &&& r.0 == CccIntake::Duplicate
                            &&& reason_keys(final(self).reason_counts@) == set_add(
                                reason_keys(old(self).reason_counts@),
                                "duplicate_suppressed"@,
                            )
                            &&& counts_after(
                                old(self).reason_counts@,
                                final(self).reason_counts@,
                                "duplicate_suppressed"@,
                            )
                        } else {
                            &&& r.0 == (if e == CccEligibility::Pdf {
                                CccIntake::ClaimPdf
                            } else {
                                CccIntake::ClaimOffice
                            })
                            &&& final(self).reason_counts == old(self).reason_counts
                        },
                    }
                },
            },
    {
        let e = ccc_eligibility(ext_lower, size);
        match e {
            CccEligibility::UnsupportedExtension => {
                self.note_miss_reason("unsupported_extension");
                return (CccIntake::UnsupportedExtension, false);
            },
            CccEligibility::TooSmall => {
                return (CccIntake::TooSmall, false);
            },
            _ => {},
        }
        let spawn = self.on_eligible_file_detected(basename, now, debug_burst);
        let f = match fp {
            None => {
                return (CccIntake::NoMetadata, spawn);
            },
            Some(f) => f,
        };
        if self.is_dup(f, now) {
            self.note_miss_reason("duplicate_suppressed");
            return (CccIntake::Duplicate, spawn);
        }
        match e {
            CccEligibility::Pdf => (CccIntake::ClaimPdf, spawn),
            _ => (CccIntake::ClaimOffice, spawn),
        }
    }

    /// How the claim of a detected file ended: a claimed file is recorded as moved and its
    /// fingerprint as taken; a failed claim counts its miss reason, which is returned.
    pub fn ccc_claim_result(
        &mut self,
        basename: &str,
        fp: &str,
        now: u64,
        claim: Result<(), String>,
        path_exists: bool,
    ) -> (miss: Option<String>)
        requires
            old(self).wf(),
        ensures
            final(self).wf(),
            match claim {
                Ok(_) => {
                    &&& miss is None
                    &&& views(final(self).moved_basenames@) == set_add(
                        views(old(self).moved_basenames@),
                        basename@,
                    )
                    &&& dedupe_view(final(self).dedupe@) == pruned(
                        dedupe_view(old(self).dedupe@),
                        now,
                    ).push((fp@, now))
                    &&& final(self).reason_counts == old(self).reason_counts
                },
                Err(e) => {
                    &&& miss matches Some(m) && m@ == failure_reason(path_exists, e@)
                    &&& reason_keys(final(self).reason_counts@) == set_add(
                        reason_keys(old(self).reason_counts@),
                        failure_reason(path_exists, e@),
                    )
                    &&& counts_after(
                        old(self).reason_counts@,
                        final(self).reason_counts@,
                        failure_reason(path_exists, e@),
                    )
                    &&& final(self).moved_basenames == old(self).moved_basenames
                    &&& final(self).dedupe == old(self).dedupe
                },
            },
    {
        match claim {
            Ok(()) => {
                self.note_moved(basename);
                self.insert_dedupe(String::from_str(fp), now);
                None
            },
            Err(e) => {
                let reason = claim_failure_reason(path_exists, e.as_str());
                self.note_miss_reason(reason.as_str());
                Some(reason)
            },
        }
    }

    /// A Word/RTF document the FileWisely printer took: moved, taken and processed.
    pub fn ccc_printed(&mut self, basename: &str, fp: &str, now: u64)
        requires
            old(self).wf(),
        ensures
            final(self).wf(),
            views(final(self).moved_basenames@) == set_add(views(old(self).moved_basenames@), basename@),
            views(final(self).processed_basenames@) == set_add(
                views(old(self).processed_basenames@),
                basename@,
            ),
            dedupe_view(final(self).dedupe@) == pruned(dedupe_view(old(self).dedupe@), now).push(
                (fp@, now),
            ),
            final(self).reason_counts == old(self).reason_counts,
    {
        self.note_moved(basename);
        self.insert_dedupe(String::from_str(fp), now);
        self.note_processed(basename);
    }
}

/// The key a CCC temp file is de-duplicated by: its lower-cased canonical path, its size
/// and its modification time in nanoseconds, joined by `|`.
pub fn ccc_file_fingerprint(path_key: &str, len: u64, modified_ns: u128) -> (r: String)
    ensures
        r@ == path_key@ + "|"@ + crate::text::decimal(len as nat) + "|"@ + crate::text::decimal(
            modified_ns as nat,
        ),
{
    let mut r = String::from_str(path_key);
    r.append("|");
    let a = crate::text::u64_to_string(len);
    r.append(a.as_str());
    r.append("|");
    let b = crate::text::u128_to_string(modified_ns);
    r.append(b.as_str());
    r
}

/// The batch key of a file: its base name lower-cased, `unknown` without one.
pub fn basename_key(path: &str) -> (r: String)
    ensures
        r@ == crate::text::unicode_lower(upload_name(path@)),
{
    let pv = crate::text::chars_of(path);
    let name = match crate::paths::file_name_exec(pv.as_slice()) {
        Some(n) => crate::text::string_of(n.as_slice()),
        None => String::from_str("unknown"),
    };
    crate::text::str_to_lowercase(name.as_str())
}

/// `c + 1`, wrapping at `u32::MAX`.
pub open spec fn bumped(c: u32) -> u32 {
    if c == u32::MAX {
        0
    } else {
        (c + 1) as u32
    }
}

/// The counts after one more miss for `reason`: its count bumped (1 for a new reason),
/// the others kept.
pub open spec fn counts_after(old: Seq<(String, u32)>, new: Seq<(String, u32)>, reason: Seq<char>) -> bool {
    forall|i: int|
        0 <= i < new.len() ==> (#[trigger] new[i]).1 == if new[i].0@ == reason {
            if i < old.len() {
                bumped(old[i].1)
            } else {
                1
            }
        } else {
            old[i].1
        }
}

/// The base name of an uploaded file, `unknown` without one.
pub open spec fn upload_name(path: Seq<char>) -> Seq<char> {
    match crate::paths::file_name(path) {
        Some(n) => n,
        None => "unknown"@,
    }
}

fn add_name(v: &mut Vec<String>, name: &str)
    requires
        distinct(views(old(v)@)),
    ensures
        distinct(views(final(v)@)),
        views(final(v)@) == set_add(views(old(v)@), name@),
{
    let n = crate::text::chars_of(name);
    let mut i: usize = 0;
    while i < v.len()
        invariant
            i <= v@.len(),
            n@ == name@,
            v@ == old(v)@,
            distinct(views(v@)),
            forall|j: int| 0 <= j < i ==> #[trigger] views(v@)[j] != name@,
        decreases v@.len() - i,
    {
        let k = crate::text::chars_of(v[i].as_str());
        if crate::text::chars_eq(k.as_slice(), n.as_slice()) {
            assert(views(v@)[i as int] == name@);
            assert(views(v@).contains(name@));
            return;
        }
        i = i + 1;
    }
    let ghost v0 = views(v@);
    v.push(String::from_str(name));
    assert(views(v@) =~= v0.push(name@));
    assert(!v0.contains(name@)) by {
        if v0.contains(name@) {
            let j = choose|j: int| 0 <= j < v0.len() && v0[j] == name@;
            assert(v0[j] != name@);
        }
    }
}

} // verus!

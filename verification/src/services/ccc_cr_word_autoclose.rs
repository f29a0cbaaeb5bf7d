//! CCC Change Requests: after a PDF is claimed from the CCC temp folder, close only the
//! Word window correlated with that flow and give CCC the focus back.
//!
//! The state follows the foreground window: a CCC Change Request window opens a flow, a
//! Word window seen during the flow is tracked, and a claimed PDF whose stem and folder
//! match the tracked document (or, in weak mode, with a single Word process) closes it.
//! Times are milliseconds on a monotonic clock.
use vstd::prelude::*;
use crate::ccc_package_sync::opt_view;
use crate::paths::file_stem;
use crate::text::{
    contains_str, eq_ignore_ascii_case, has_sub, is_digit, starts_with, trim, trim_end, trim_start,
    unicode_lower,
};

verus! {

pub const CR_FLOW_TTL_MS: u64 = 240000;

pub const WORD_TRACK_TTL_MS: u64 = 180000;

pub const CLOSE_COOLDOWN_MS: u64 = 12000;

pub const POLL_MS: u64 = 550;

/// Time from `t` to `now`, zero when `t` is later.
pub open spec fn elapsed(now: u64, t: u64) -> u64 {
    if now >= t {
        (now - t) as u64
    } else {
        0
    }
}

fn elapsed_exec(now: u64, t: u64) -> (r: u64)
    ensures
        r == elapsed(now, t),
{
    if now >= t {
        now - t
    } else {
        0
    }
}

/// Enabled in CCC temp-watch mode unless `UCE_CCC_CR_AUTOCLOSE_WORD` is `0`, `false` or
/// `off` (trimmed, any ASCII case for the words).
pub open spec fn autoclose_enabled(temp_watch_only: bool, env: Option<Seq<char>>) -> bool {
    temp_watch_only && match env {
        Some(v) => {
            let t = trim(v);
            !(t == "0"@ || eq_ignore_ascii_case(t, "false"@) || eq_ignore_ascii_case(t, "off"@))
        },
        None => true,
    }
}

pub fn ccc_cr_autoclose_enabled(temp_watch_only: bool, env: Option<&str>) -> (b: bool)
    ensures
        b == autoclose_enabled(
            temp_watch_only,
            match env {
                Some(v) => Some(v@),
                None => None,
            },
        ),
{
    if !temp_watch_only {
        return false;
    }
    match env {
        Some(v) => {
            let t = crate::text::trim_chars(v);
            let t = t.as_slice();
            !(crate::text::eq_str(t, "0") || crate::text::eq_ignore_ascii_case_str(t, "false")
                || crate::text::eq_ignore_ascii_case_str(t, "off"))
        },
        None => true,
    }
}

/// Weak correlation is on when `UCE_CCC_CR_AUTOCLOSE_WEAK` is `1` (trimmed).
pub fn weak_mode_enabled(env: Option<&str>) -> (b: bool)
    ensures
        b == match env {
            Some(v) => trim(v@) == "1"@,
            None => false,
        },
{
    match env {
        Some(v) => {
            let t = crate::text::trim_chars(v);
            crate::text::eq_str(t.as_slice(), "1")
        },
        None => false,
    }
}

/// The number of ASCII digits `t` starts with.
pub open spec fn leading_digits(t: Seq<char>) -> nat
    decreases t.len(),
{
    if t.len() > 0 && is_digit(t[0]) {
        1 + leading_digits(t.drop_first())
    } else {
        0
    }
}

/// A title that starts (after leading whitespace) with a four- to six-digit RO number.
pub open spec fn starts_with_ro_number(t: Seq<char>) -> bool {
    4 <= leading_digits(trim_start(t)) <= 6
}

fn leading_digits_exec(v: &[char], from: usize) -> (n: usize)
    requires
        from <= v.len(),
    ensures
        n == leading_digits(v@.skip(from as int)),
{
    let mut i = from;
    while i < v.len() && crate::text::char_is_digit(v[i])
        invariant
            from <= i <= v.len(),
            forall|k: int| from <= k < i ==> is_digit(#[trigger] v@[k]),
        decreases v.len() - i,
    {
        i = i + 1;
    }
    proof {
        lemma_leading_digits(v@, from as int, i as int);
    }
    i - from
}

proof fn lemma_leading_digits(v: Seq<char>, a: int, b: int)
    requires
        0 <= a <= b <= v.len(),
        forall|k: int| a <= k < b ==> is_digit(#[trigger] v[k]),
        b == v.len() || !is_digit(v[b]),
    ensures
        leading_digits(v.skip(a)) == b - a,
    decreases b - a,
{
    if a < b {
        lemma_leading_digits(v, a + 1, b);
        assert(v.skip(a).drop_first() =~= v.skip(a + 1));
    } else {
        if b < v.len() {
            assert(v.skip(a)[0] == v[b]);
        }
    }
}

pub fn title_starts_with_4_to_6_digit_ro(t: &str) -> (b: bool)
    ensures
        b == starts_with_ro_number(t@),
{
    let v = crate::text::chars_of(t);
    let mut a: usize = 0;
    assert(v@.skip(0) =~= v@);
    while a < v.len() && crate::text::char_is_ws(v[a])
        invariant
            a <= v.len(),
            v@ == t@,
            trim_start(v@) == trim_start(v@.skip(a as int)),
        decreases v.len() - a,
    {
        assert(v@.skip(a as int).drop_first() =~= v@.skip(a + 1));
        a = a + 1;
    }
    assert(trim_start(v@.skip(a as int)) == v@.skip(a as int));
    let n = leading_digits_exec(v.as_slice(), a);
    4 <= n && n <= 6
}

/// A CCC window: `ccc` in the lower-cased app name, or a lower-cased title that mentions
/// CCC, a repair order, or starts with an RO number.
pub open spec fn ccc_surface(app: Seq<char>, title: Seq<char>) -> bool {
    let a = unicode_lower(app);
    let t = unicode_lower(title);
    has_sub(a, "ccc"@) || has_sub(t, "ccc"@) || has_sub(t, "ccc one"@) || has_sub(t, "cccone"@)
        || starts_with_ro_number(t) || has_sub(t, "repair order"@) || has_sub(t, "ro "@) || has_sub(
        t,
        "ro#"@,
    )
}

pub fn is_ccc_surface(app: &str, title: &str) -> (b: bool)
    ensures
        b == ccc_surface(app@, title@),
{
    let a = crate::text::lower_chars(app);
    let ts = crate::text::str_to_lowercase(title);
    let t = crate::text::chars_of(ts.as_str());
    let t = t.as_slice();
    contains_str(a.as_slice(), "ccc") || contains_str(t, "ccc") || contains_str(t, "ccc one")
        || contains_str(t, "cccone") || title_starts_with_4_to_6_digit_ro(ts.as_str()) || contains_str(
        t,
        "repair order",
    ) || contains_str(t, "ro ") || contains_str(t, "ro#")
}

pub open spec fn change_request_title(title: Seq<char>) -> bool {
    let t = unicode_lower(title);
    has_sub(t, "change request"@) || has_sub(t, "change requests"@) || has_sub(t, "changerequest"@)
        || has_sub(t, "change-request"@)
}

pub fn title_is_change_request(title: &str) -> (b: bool)
    ensures
        b == change_request_title(title@),
{
    let t = crate::text::lower_chars(title);
    let t = t.as_slice();
    contains_str(t, "change request") || contains_str(t, "change requests") || contains_str(
        t,
        "changerequest",
    ) || contains_str(t, "change-request")
}

/// `s` without trailing backslashes.
pub open spec fn trim_end_backslashes(s: Seq<char>) -> Seq<char>
    decreases s.len(),
{
    if s.len() > 0 && s.last() == '\\' {
        trim_end_backslashes(s.drop_last())
    } else {
        s
    }
}

/// Whether a path lies under the CCC temp folder (lower-cased prefix match).
pub open spec fn under_ccc_temp(p: Seq<char>, ccc_temp: Seq<char>) -> bool {
    starts_with(unicode_lower(p), trim_end_backslashes(unicode_lower(ccc_temp)))
}

pub fn path_under_ccc_temp(p: &str, ccc_temp: &str) -> (b: bool)
    ensures
        b == under_ccc_temp(p@, ccc_temp@),
{
    let pl = crate::text::lower_chars(p);
    let cl = crate::text::lower_chars(ccc_temp);
    let mut n = cl.len();
    assert(cl@.take(n as int) =~= cl@);
    while n > 0 && cl[n - 1] == '\\'
        invariant
            n <= cl.len(),
            trim_end_backslashes(cl@) == trim_end_backslashes(cl@.take(n as int)),
        decreases n,
    {
        assert(cl@.take(n as int).drop_last() =~= cl@.take(n - 1));
        n = n - 1;
    }
    let c = crate::text::slice_chars(cl.as_slice(), 0, n);
    assert(c@ =~= cl@.take(n as int));
    crate::text::matches_at(pl.as_slice(), c.as_slice(), 0)
}

/// The Word window tracked during a flow.
pub struct WordTrack {
    pub pid: u32,
    pub hwnd: i64,
    /// The lower-cased document path from the window title, when it names one.
    pub doc_path_lower: Option<String>,
    pub marked_at: u64,
}

/// The autoclose state.
pub struct CrState {
    /// When the foreground last looked like CCC Change Requests.
    pub cr_flow_at: Option<u64>,
    pub ccc_hwnd: Option<i64>,
    pub word: Option<WordTrack>,
    pub last_autoclose_at: Option<u64>,
}

/// One sample of the foreground window.
pub struct ForegroundSample {
    /// The executable's file name.
    pub exe: String,
    pub title: String,
    pub app: String,
    pub pid: u32,
    /// The top-level window of `pid` (0 when none was found).
    pub hwnd: i64,
    /// The document path the title names (see `extract_path_from_word_title`).
    pub title_doc_path: Option<String>,
}

/// What a sample changed.
pub enum CrTick {
    WordTracked,
    FlowStarted,
    Unchanged,
}

/// A stale flow (older than `CR_FLOW_TTL_MS`) ends, dropping the flow's window and the
/// tracked Word window; a tracked window older than `WORD_TRACK_TTL_MS` is dropped.
pub open spec fn expire(s: CrState, now: u64) -> CrState {
    let s1 = match s.cr_flow_at {
        Some(t) => if elapsed(now, t) > CR_FLOW_TTL_MS {
            CrState { cr_flow_at: None, ccc_hwnd: None, word: None, ..s }
        } else {
            s
        },
        None => s,
    };
    match s1.word {
        Some(w) => if elapsed(now, w.marked_at) > WORD_TRACK_TTL_MS {
            CrState { word: None, ..s1 }
        } else {
            s1
        },
        None => s1,
    }
}

/// The lower-cased document path kept for a tracked window.
pub open spec fn lowered_opt(p: Option<Seq<char>>) -> Option<Seq<char>> {
    match p {
        Some(x) => Some(unicode_lower(x)),
        None => None,
    }
}

impl CrState {
    pub fn new() -> (r: Self)
        ensures
            r.cr_flow_at is None && r.ccc_hwnd is None && r.word is None && r.last_autoclose_at is None,
    {
        CrState { cr_flow_at: None, ccc_hwnd: None, word: None, last_autoclose_at: None }
    }

    fn expire_stale(&mut self, now: u64)
        ensures
            *final(self) == expire(*old(self), now),
    {
        match self.cr_flow_at {
            Some(t) => {
                if elapsed_exec(now, t) > CR_FLOW_TTL_MS {
                    self.cr_flow_at = None;
                    self.ccc_hwnd = None;
                    self.word = None;
                }
            },
            None => {},
        }
        let drop_word = match &self.word {
            Some(w) => elapsed_exec(now, w.marked_at) > WORD_TRACK_TTL_MS,
            None => false,
        };
        if drop_word {
            self.word = None;
        }
    }

    /// One poll of the foreground window: after expiry, a Word window seen during a flow
    /// is tracked; a CCC Change Request window starts a flow.
    pub fn tick(&mut self, now: u64, sample: &ForegroundSample) -> (r: CrTick)
        ensures
            ({
                let e = expire(*old(self), now);
                if has_sub(unicode_lower(sample.exe@), "winword"@) {
                    if e.cr_flow_at is Some {
                        &&& r is WordTracked
                        &&& final(self).cr_flow_at == e.cr_flow_at
                        &&& final(self).ccc_hwnd == e.ccc_hwnd
                        &&& final(self).last_autoclose_at == e.last_autoclose_at
                        &&& final(self).word matches Some(w) && w.pid == sample.pid && w.hwnd == sample.hwnd
                            && w.marked_at == now && opt_view(w.doc_path_lower) == lowered_opt(
                            opt_view(sample.title_doc_path),
                        )
                    } else {
                        r is Unchanged && *final(self) == e
                    }
                } else if ccc_surface(sample.app@, sample.title@) && change_request_title(sample.title@) {
                    &&& r is FlowStarted
                    &&& final(self).cr_flow_at == Some(now)
                    &&& final(self).ccc_hwnd == Some(sample.hwnd)
                    &&& final(self).word == e.word
                    &&& final(self).last_autoclose_at == e.last_autoclose_at
                } else {
                    r is Unchanged && *final(self) == e
                }
            }),
    {
        self.expire_stale(now);
        let exe = crate::text::lower_chars(sample.exe.as_str());
        if contains_str(exe.as_slice(), "winword") {
            if self.cr_flow_at.is_some() {
                let doc = match &sample.title_doc_path {
                    Some(p) => Some(crate::text::str_to_lowercase(p.as_str())),
                    None => None,
                };
                self.word = Some(
                    WordTrack { pid: sample.pid, hwnd: sample.hwnd, doc_path_lower: doc, marked_at: now },
                );
                return CrTick::WordTracked;
            }
            CrTick::Unchanged
        } else if is_ccc_surface(sample.app.as_str(), sample.title.as_str()) && title_is_change_request(
            sample.title.as_str(),
        ) {
            self.cr_flow_at = Some(now);
            self.ccc_hwnd = Some(sample.hwnd);
            CrTick::FlowStarted
        } else {
            CrTick::Unchanged
        }
    }
}

/// Strong correlation: the tracked document and the PDF have the same lower-cased stem,
/// and their folders (as given, lower-cased) are equal.
pub open spec fn strong_match(
    doc_path_lower: Option<Seq<char>>,
    doc_parent: Option<Seq<char>>,
    pdf: Seq<char>,
    pdf_parent: Option<Seq<char>>,
) -> bool {
    match doc_path_lower {
        None => false,
        Some(d) => match (file_stem(d), file_stem(pdf)) {
            (Some(a), Some(b)) => unicode_lower(a) == unicode_lower(b) && lowered_opt(pdf_parent)
                == lowered_opt(doc_parent),
            _ => false,
        },
    }
}

pub fn correlate_strong(
    doc_path_lower: Option<&str>,
    doc_parent: Option<&str>,
    pdf: &str,
    pdf_parent: Option<&str>,
) -> (b: bool)
    ensures
        b == strong_match(
            match doc_path_lower {
                Some(d) => Some(d@),
                None => None,
            },
            match doc_parent {
                Some(d) => Some(d@),
                None => None,
            },
            pdf@,
            match pdf_parent {
                Some(d) => Some(d@),
                None => None,
            },
        ),
{
    let d = match doc_path_lower {
        None => {
            return false;
        },
        Some(d) => d,
    };
    let dv = crate::text::chars_of(d);
    let pv = crate::text::chars_of(pdf);
    let (a, b) = match (crate::paths::file_stem_exec(dv.as_slice()), crate::paths::file_stem_exec(pv.as_slice())) {
        (Some(a), Some(b)) => (a, b),
        _ => {
            return false;
        },
    };
    let a = crate::text::string_of(a.as_slice());
    let b = crate::text::string_of(b.as_slice());
    let al = crate::text::lower_chars(a.as_str());
    let bl = crate::text::lower_chars(b.as_str());
    if !crate::text::chars_eq(al.as_slice(), bl.as_slice()) {
        return false;
    }
    match (doc_parent, pdf_parent) {
        (Some(x), Some(y)) => {
            let xl = crate::text::lower_chars(x);
            let yl = crate::text::lower_chars(y);
            crate::text::chars_eq(yl.as_slice(), xl.as_slice())
        },
        (None, None) => true,
        _ => false,
    }
}

/// What a claimed CCC temp PDF leads to.
pub enum ClaimedPdf {
    /// Autoclose is off, or the PDF is not under the CCC temp folder.
    Ignored,
    /// A window was closed less than `CLOSE_COOLDOWN_MS` ago.
    CooldownActive,
    NoTrackedWord,
    /// The tracked window does not match the PDF (it stays tracked while fresh).
    NotCorrelated,
    /// The tracked window is gone (it stays tracked while fresh).
    WindowInvalid,
    /// Post `WM_CLOSE` to this window, then report with `after_close_posted`.
    Close { track: WordTrack, strong: bool },
}

/// What the claim of a PDF observed besides the state.
pub struct ClaimedPdfFacts {
    pub enabled: bool,
    pub under_ccc_temp: bool,
    /// Strong correlation with the tracked window (see `correlate_strong`).
    pub strong: bool,
    pub weak_mode: bool,
    pub winword_processes: u64,
    /// Whether the tracked window still exists.
    pub hwnd_valid: bool,
}

/// Weak correlation: weak mode, one Word process at most, the PDF under the CCC temp
/// folder, a fresh track and a known window.
pub open spec fn weak_match(facts: ClaimedPdfFacts, w: WordTrack, now: u64) -> bool {
    facts.weak_mode && facts.winword_processes <= 1 && facts.under_ccc_temp && elapsed(now, w.marked_at)
        <= WORD_TRACK_TTL_MS && w.hwnd != 0
}

/// A window was closed less than `CLOSE_COOLDOWN_MS` ago.
pub open spec fn close_cooldown_active(last_autoclose_at: Option<u64>, now: u64) -> bool {
    match last_autoclose_at {
        Some(lc) => elapsed(now, lc) < CLOSE_COOLDOWN_MS,
        None => false,
    }
}

/// After a close, a PDF claimed within `CLOSE_COOLDOWN_MS` closes nothing: the close
/// time `after_close_posted` keeps puts every such claim in the cool-down that
/// `notify_ccc_temp_pdf_claimed` answers with `CooldownActive`.
pub proof fn law_close_starts_cooldown(closed_at: u64, later: u64)
    requires
        closed_at <= later,
        later - closed_at < CLOSE_COOLDOWN_MS,
    ensures
        close_cooldown_active(Some(closed_at), later),
{
}

/// The track kept after a failed attempt: only while it is fresh.
pub open spec fn kept_track(w: WordTrack, now: u64) -> Option<WordTrack> {
    if elapsed(now, w.marked_at) < WORD_TRACK_TTL_MS {
        Some(w)
    } else {
        None
    }
}

impl CrState {
    /// The decision after a PDF was claimed from the CCC temp folder.
    pub fn notify_ccc_temp_pdf_claimed(&mut self, facts: ClaimedPdfFacts, now: u64) -> (r: ClaimedPdf)
        ensures
            final(self).cr_flow_at == old(self).cr_flow_at,
            final(self).ccc_hwnd == old(self).ccc_hwnd,
            final(self).last_autoclose_at == old(self).last_autoclose_at,
            !facts.enabled || !facts.under_ccc_temp ==> r is Ignored && final(self).word == old(self).word,
            facts.enabled && facts.under_ccc_temp && close_cooldown_active(old(self).last_autoclose_at, now) ==> r is CooldownActive
                && final(self).word == old(self).word,
            facts.enabled && facts.under_ccc_temp && !close_cooldown_active(old(self).last_autoclose_at, now) ==> match old(self).word {
                None => r is NoTrackedWord && final(self).word is None,
                Some(w) => if !facts.strong && !weak_match(facts, w, now) {
                    r is NotCorrelated && final(self).word == kept_track(w, now)
                } else if !facts.hwnd_valid {
                    r is WindowInvalid && final(self).word == kept_track(w, now)
                } else {
                    r == (ClaimedPdf::Close { track: w, strong: facts.strong }) && final(self).word is None
                },
            },
    {
        if !facts.enabled || !facts.under_ccc_temp {
            return ClaimedPdf::Ignored;
        }
        match self.last_autoclose_at {
            Some(lc) => {
                if elapsed_exec(now, lc) < CLOSE_COOLDOWN_MS {
                    return ClaimedPdf::CooldownActive;
                }
            },
            None => {},
        }
        let w = match self.word.take() {
            None => {
                return ClaimedPdf::NoTrackedWord;
            },
            Some(w) => w,
        };
        let weak = if facts.strong {
            false
        } else {
            facts.weak_mode && facts.winword_processes <= 1 && facts.under_ccc_temp && elapsed_exec(
                now,
                w.marked_at,
            ) <= WORD_TRACK_TTL_MS && w.hwnd != 0
        };
        if !facts.strong && !weak {
            if elapsed_exec(now, w.marked_at) < WORD_TRACK_TTL_MS {
                self.word = Some(w);
            }
            return ClaimedPdf::NotCorrelated;
        }
        if !facts.hwnd_valid {
            if elapsed_exec(now, w.marked_at) < WORD_TRACK_TTL_MS {
                self.word = Some(w);
            }
            return ClaimedPdf::WindowInvalid;
        }
        ClaimedPdf::Close { track: w, strong: facts.strong }
    }

    /// After `WM_CLOSE` was posted (or not) to the window `track`: on success the close
    /// time is kept and the CCC window to focus is returned (when it is known); on
    /// failure the track is kept while fresh.
    pub fn after_close_posted(&mut self, track: WordTrack, posted: bool, now: u64) -> (focus: Option<i64>)
        ensures
            final(self).cr_flow_at == old(self).cr_flow_at,
            final(self).ccc_hwnd == old(self).ccc_hwnd,
            posted ==> final(self).last_autoclose_at == Some(now) && final(self).word == old(self).word
                && focus == match old(self).ccc_hwnd {
                Some(h) => if h != 0 {
                    Some(h)
                } else {
                    None
                },
                None => None,
            },
            !posted ==> final(self).last_autoclose_at == old(self).last_autoclose_at && final(self).word
                == kept_track(track, now) && focus is None,
    {
        if !posted {
            if elapsed_exec(now, track.marked_at) < WORD_TRACK_TTL_MS {
                self.word = Some(track);
            } else {
                self.word = None;
            }
            return None;
        }
        self.last_autoclose_at = Some(now);
        match self.ccc_hwnd {
            Some(h) => if h != 0 {
                Some(h)
            } else {
                None
            },
            None => None,
        }
    }

    /// The hotkey close: the foreground must be Word (`exe` lower-cased contains
    /// `winword`), its window known, and a flow recent or the window tracked. Returns the
    /// window to post `WM_CLOSE` to.
    pub fn manual_close_armed_word(&self, enabled: bool, exe: &str, pid: u32, hwnd: Option<i64>, now: u64) -> (r:
        Result<i64, String>)
        ensures
            !enabled ==> (r matches Err(e) && e@ == "CCC CR Word autoclose disabled."@),
            enabled && !has_sub(unicode_lower(exe@), "winword"@) ==> (r matches Err(e) && e@
                == "Foreground window is not Word."@),
            enabled && has_sub(unicode_lower(exe@), "winword"@) && hwnd is None ==> (r matches Err(e) && e@
                == "Could not resolve Word window handle."@),
            enabled && has_sub(unicode_lower(exe@), "winword"@) && hwnd is Some ==> ({
                let h = hwnd->0;
                let in_flow = match self.cr_flow_at {
                    Some(t) => elapsed(now, t) < CR_FLOW_TTL_MS,
                    None => false,
                };
                let is_tracked = match self.word {
                    Some(w) => w.hwnd == h || w.pid == pid,
                    None => false,
                };
                if in_flow || is_tracked {
                    r == Ok::<i64, String>(h)
                } else {
                    r matches Err(e) && e@ == "No recent Change Request flow \u{2014} open Change Requests in CCC first."@
                }
            }),
    {
        if !enabled {
            return Err(String::from_str("CCC CR Word autoclose disabled."));
        }
        let e = crate::text::lower_chars(exe);
        if !contains_str(e.as_slice(), "winword") {
            return Err(String::from_str("Foreground window is not Word."));
        }
        let h = match hwnd {
            None => {
                return Err(String::from_str("Could not resolve Word window handle."));
            },
            Some(h) => h,
        };
        let in_flow = match self.cr_flow_at {
            Some(t) => elapsed_exec(now, t) < CR_FLOW_TTL_MS,
            None => false,
        };
        let is_tracked = match &self.word {
            Some(w) => w.hwnd == h || w.pid == pid,
            None => false,
        };
        if !in_flow && !is_tracked {
            return Err(
                String::from_str("No recent Change Request flow \u{2014} open Change Requests in CCC first."),
            );
        }
        Ok(h)
    }

    /// After the hotkey's `WM_CLOSE`: on success the close time is kept, the track
    /// dropped, and the CCC window to focus returned (when known).
    pub fn after_manual_close(&mut self, posted: bool, now: u64) -> (r: Result<(String, Option<i64>), String>)
        ensures
            !posted ==> (r matches Err(e) && e@ == "PostMessage WM_CLOSE failed."@) && *final(self) == *old(self),
            posted ==> (r matches Ok((m, f)) && m@ == "Word close requested (WM_CLOSE)."@ && f == match old(
                self,
            ).ccc_hwnd {
                Some(h) => if h != 0 {
                    Some(h)
                } else {
                    None
                },
                None => None,
            }) && final(self).last_autoclose_at == Some(now) && final(self).word is None
                && final(self).cr_flow_at == old(self).cr_flow_at && final(self).ccc_hwnd == old(self).ccc_hwnd,
    {
        if !posted {
            return Err(String::from_str("PostMessage WM_CLOSE failed."));
        }
        self.last_autoclose_at = Some(now);
        self.word = None;
        let f = match self.ccc_hwnd {
            Some(h) => if h != 0 {
                Some(h)
            } else {
                None
            },
            None => None,
        };
        Ok((String::from_str("Word close requested (WM_CLOSE)."), f))
    }
}

} // verus!

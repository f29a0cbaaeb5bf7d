//! Pulling local repair-order documents up to FileWisely: which folders look like ROs,
//! which files are harvested, and the bookkeeping of one harvest run (at most
//! `MAX_FILES` queued, each file key queued once).
use vstd::prelude::*;
use crate::paths::extension;
use crate::text::{contains_str, has_sub, is_digit, starts_with, trim, unicode_lower, views};

verus! {

pub const MAX_FILES: usize = 150;

pub const MAX_DEPTH: usize = 4;

pub const MAX_VISITS: usize = 4000;

/// A maximal run of ASCII digits `t[a..b]`.
pub open spec fn digit_run(t: Seq<char>, a: int, b: int) -> bool {
    &&& 0 <= a < b <= t.len()
    &&& forall|k: int| a <= k < b ==> is_digit(#[trigger] t[k])
    &&& (a == 0 || !is_digit(t[a - 1]))
    &&& (b == t.len() || !is_digit(t[b]))
}

/// Some maximal run of four to seven digits.
pub open spec fn has_ro_number(t: Seq<char>) -> bool {
    exists|a: int, b: int| #[trigger] digit_run(t, a, b) && 4 <= b - a <= 7
}

/// A folder name that looks like a repair order: lower-cased and trimmed, it starts with
/// `ro`, contains `ro-`, `ro_` or `ro `, or holds a run of four to seven digits.
pub open spec fn ro_folder_name(name: Seq<char>) -> bool {
    let t = trim(unicode_lower(name));
    starts_with(t, "ro"@) || has_sub(t, "ro-"@) || has_sub(t, "ro_"@) || has_sub(t, "ro "@)
        || has_ro_number(t)
}

fn has_ro_number_exec(t: &[char]) -> (r: bool)
    ensures
        r == has_ro_number(t@),
{
    let n = t.len();
    let mut i: usize = 0;
    while i < n
        invariant
            i <= n,
            n == t.len(),
            i == 0 || i == n || !is_digit(t@[i - 1]) || !is_digit(t@[i as int]),
            forall|a: int, b: int| digit_run(t@, a, b) && b <= i ==> !(4 <= b - a <= 7),
        decreases n - i,
    {
        if crate::text::char_is_digit(t[i]) {
            let start = i;
            while i < n && crate::text::char_is_digit(t[i])
                invariant
                    start <= i <= n,
                    n == t.len(),
                    forall|k: int| start <= k < i ==> is_digit(#[trigger] t@[k]),
                decreases n - i,
            {
                i = i + 1;
            }
            assert(digit_run(t@, start as int, i as int));
            if i - start >= 4 && i - start <= 7 {
                return true;
            }
            assert forall|a: int, b: int| digit_run(t@, a, b) && b <= i implies !(4 <= b - a <= 7) by {
                if b > start {
                    if a < start {
                        assert(is_digit(t@[start - 1]));
                    } else if a > start {
                        assert(is_digit(t@[a - 1]));
                    } else if b < i {
                        assert(is_digit(t@[b]));
                    }
                }
            }
        } else {
            assert forall|a: int, b: int| digit_run(t@, a, b) && b <= i + 1 implies !(4 <= b - a <= 7) by {
                if b == i + 1 {
                    assert(is_digit(t@[i as int]));
                }
            }
            i = i + 1;
        }
    }
    false
}

pub fn looks_like_ro_folder_name(name: &str) -> (b: bool)
    ensures
        b == ro_folder_name(name@),
{
    let lower = crate::text::str_to_lowercase(name);
    let t = crate::text::trim_chars(lower.as_str());
    let t = t.as_slice();
    crate::text::starts_with_str(t, "ro") || contains_str(t, "ro-") || contains_str(t, "ro_")
        || contains_str(t, "ro ") || has_ro_number_exec(t)
}

/// What a harvested file is, by its lower-cased extension.
#[derive(PartialEq, Eq, Structural, Clone, Copy)]
pub enum HarvestKind {
    Pdf,
    Office,
    Image,
}

pub open spec fn harvest_kind(path: Seq<char>) -> Option<HarvestKind> {
    let l = unicode_lower(
        match extension(path) {
            Some(e) => e,
            None => Seq::empty(),
        },
    );
    if l == "pdf"@ {
        Some(HarvestKind::Pdf)
    } else if l == "doc"@ || l == "docx"@ || l == "rtf"@ {
        Some(HarvestKind::Office)
    } else if l == "jpg"@ || l == "jpeg"@ || l == "png"@ || l == "tif"@ || l == "tiff"@ || l
        == "bmp"@ {
        Some(HarvestKind::Image)
    } else {
        None
    }
}

pub fn is_harvest_ext(path: &str) -> (r: Option<HarvestKind>)
    ensures
        r == harvest_kind(path@),
{
    let pv = crate::text::chars_of(path);
    let e = match crate::paths::extension_exec(pv.as_slice()) {
        Some(e) => crate::text::string_of(e.as_slice()),
        None => String::new(),
    };
    let l = crate::text::lower_chars(e.as_str());
    let l = l.as_slice();
    if crate::text::eq_str(l, "pdf") {
        Some(HarvestKind::Pdf)
    } else if crate::text::eq_str(l, "doc") || crate::text::eq_str(l, "docx") || crate::text::eq_str(
        l,
        "rtf",
    ) {
        Some(HarvestKind::Office)
    } else if crate::text::eq_str(l, "jpg") || crate::text::eq_str(l, "jpeg") || crate::text::eq_str(
        l,
        "png",
    ) || crate::text::eq_str(l, "tif") || crate::text::eq_str(l, "tiff") || crate::text::eq_str(
        l,
        "bmp",
    ) {
        Some(HarvestKind::Image)
    } else {
        None
    }
}

/// The CCC Import tree is the download mirror, never a source of uploads.
pub open spec fn ccc_import_mirror(path: Seq<char>) -> bool {
    let s = unicode_lower(path);
    has_sub(s, "\\filewisely\\ccc import"@) || has_sub(s, "/filewisely/ccc import"@)
}

pub fn is_ccc_import_mirror(path: &str) -> (b: bool)
    ensures
        b == ccc_import_mirror(path@),
{
    let s = crate::text::lower_chars(path);
    contains_str(s.as_slice(), "\\filewisely\\ccc import") || contains_str(
        s.as_slice(),
        "/filewisely/ccc import",
    )
}

/// Folders the walk never enters: staging, processed and failed (any ASCII case).
pub open spec fn skipped_dir(name: Seq<char>) -> bool {
    crate::text::eq_ignore_ascii_case(name, ".uce_staging"@) || crate::text::eq_ignore_ascii_case(
        name,
        "processed"@,
    ) || crate::text::eq_ignore_ascii_case(name, "failed"@)
}

pub fn skips_harvest_dir(name: &str) -> (b: bool)
    ensures
        b == skipped_dir(name@),
{
    let n = crate::text::chars_of(name);
    crate::text::eq_ignore_ascii_case_str(n.as_slice(), ".uce_staging")
        || crate::text::eq_ignore_ascii_case_str(n.as_slice(), "processed")
        || crate::text::eq_ignore_ascii_case_str(n.as_slice(), "failed")
}

/// The identity of a harvested file: `{lower-cased path}:{length}:{mtime ms}`.
pub open spec fn file_key_text(path: Seq<char>, len: u64, mtime_ms: u128) -> Seq<char> {
    unicode_lower(path) + ":"@ + crate::text::decimal(len as nat) + ":"@ + crate::text::decimal(
        mtime_ms as nat,
    )
}

pub fn file_key(path: &str, len: u64, mtime_ms: u128) -> (r: String)
    ensures
        r@ == file_key_text(path@, len, mtime_ms),
{
    let mut s = crate::text::str_to_lowercase(path);
    s.append(":");
    let l = crate::text::u64_to_string(len);
    s.append(l.as_str());
    s.append(":");
    let m = crate::text::u128_to_string(mtime_ms);
    s.append(m.as_str());
    s
}

/// The name an image or Office file is copied under before it is ingested:
/// `harvest_{now_ms}.{ext}`, `bin` without an extension.
pub open spec fn harvest_copy_name_text(path: Seq<char>, now_ms: i64) -> Seq<char> {
    "harvest_"@ + crate::text::decimal_int(now_ms as int) + "."@ + match extension(path) {
        Some(e) => e,
        None => "bin"@,
    }
}

pub fn harvest_copy_name(path: &str, now_ms: i64) -> (r: String)
    ensures
        r@ == harvest_copy_name_text(path@, now_ms),
{
    let pv = crate::text::chars_of(path);
    let ext = match crate::paths::extension_exec(pv.as_slice()) {
        Some(e) => crate::text::string_of(e.as_slice()),
        None => String::from_str("bin"),
    };
    let mut m = String::from_str("harvest_");
    let ts = crate::text::i64_to_string(now_ms);
    m.append(ts.as_str());
    m.append(".");
    m.append(ext.as_str());
    m
}

/// What to do with the next file of a harvest run.
pub enum HarvestStep {
    /// `MAX_FILES` files are queued: the run ends.
    Stop,
    /// Under the CCC Import mirror: counted and passed over.
    SkipMirror,
    /// Queued by an earlier run: counted and passed over.
    SkipSeen,
    /// Not a harvested kind: passed over.
    SkipKind,
    /// Copy into the Scans folder (images) or Incoming (Office), then ingest the copy.
    CopyThenIngest { to_scans: bool },
    /// Ingest the file where it is (PDF).
    Ingest,
}

/// The bookkeeping of one harvest run.
pub struct HarvestRun {
    pub queued: Vec<String>,
    pub skipped_seen: usize,
    pub skipped_mirror: usize,
    /// Keys of files queued by this run and earlier ones.
    pub seen: Vec<String>,
}

pub open spec fn seen_has(seen: Seq<String>, key: Seq<char>) -> bool {
    views(seen).contains(key)
}

impl HarvestRun {
    pub open spec fn wf(&self) -> bool {
        self.queued@.len() <= MAX_FILES
    }

    /// A run that starts from the keys earlier runs queued.
    pub fn new(seen: Vec<String>) -> (r: Self)
        ensures
            r.wf(),
            r.queued@.len() == 0,
            r.skipped_seen == 0,
            r.skipped_mirror == 0,
            r.seen@ == seen@,
    {
        HarvestRun { queued: Vec::new(), skipped_seen: 0, skipped_mirror: 0, seen }
    }

    /// The step for the next file, newest first, with its key; the counters of passed-over
    /// files are kept here.
    pub fn decide(&mut self, path: &str, key: &str) -> (step: HarvestStep)
        requires
            old(self).wf(),
            old(self).skipped_seen < usize::MAX,
            old(self).skipped_mirror < usize::MAX,
        ensures
            final(self).wf(),
            final(self).queued@ == old(self).queued@,
            final(self).seen@ == old(self).seen@,
            old(self).queued@.len() >= MAX_FILES ==> step is Stop,
            old(self).queued@.len() < MAX_FILES && ccc_import_mirror(path@) ==> step is SkipMirror,
            old(self).queued@.len() < MAX_FILES && !ccc_import_mirror(path@) && seen_has(old(self).seen@, key@)
                ==> step is SkipSeen,
            old(self).queued@.len() < MAX_FILES && !ccc_import_mirror(path@) && !seen_has(old(self).seen@, key@)
                ==> match harvest_kind(path@) {
                None => step is SkipKind,
                Some(HarvestKind::Pdf) => step is Ingest,
                Some(HarvestKind::Image) => step == (HarvestStep::CopyThenIngest { to_scans: true }),
                Some(HarvestKind::Office) => step == (HarvestStep::CopyThenIngest { to_scans: false }),
            },
            final(self).skipped_mirror == old(self).skipped_mirror + if step is SkipMirror { 1int } else { 0 },
            final(self).skipped_seen == old(self).skipped_seen + if step is SkipSeen { 1int } else { 0 },
    {
        if self.queued.len() >= MAX_FILES {
            return HarvestStep::Stop;
        }
        if is_ccc_import_mirror(path) {
            self.skipped_mirror = self.skipped_mirror + 1;
            return HarvestStep::SkipMirror;
        }
        if crate::text::vec_contains_str(&self.seen, key) {
            self.skipped_seen = self.skipped_seen + 1;
            return HarvestStep::SkipSeen;
        }
        match is_harvest_ext(path) {
            None => HarvestStep::SkipKind,
            Some(HarvestKind::Pdf) => HarvestStep::Ingest,
            Some(HarvestKind::Image) => HarvestStep::CopyThenIngest { to_scans: true },
            Some(HarvestKind::Office) => HarvestStep::CopyThenIngest { to_scans: false },
        }
    }

    /// Records that `path` (key `key`) was handed to the watcher.
    pub fn note_queued(&mut self, path: &str, key: &str)
        requires
            old(self).queued@.len() < MAX_FILES,
        ensures
            final(self).wf(),
            seen_has(final(self).seen@, key@),
            views(final(self).queued@) == views(old(self).queued@).push(path@),
            views(final(self).seen@) == if seen_has(old(self).seen@, key@) {
                views(old(self).seen@)
            } else {
                views(old(self).seen@).push(key@)
            },
            final(self).skipped_seen == old(self).skipped_seen,
            final(self).skipped_mirror == old(self).skipped_mirror,
    {
        let ghost q = views(self.queued@);
        let ghost sv = views(self.seen@);
        self.queued.push(String::from_str(path));
        assert(views(self.queued@) =~= q.push(path@));
        if !crate::text::vec_contains_str(&self.seen, key) {
            self.seen.push(String::from_str(key));
            assert(views(self.seen@) =~= sv.push(key@));
            assert(views(self.seen@)[sv.len() as int] == key@);
        }
    }
}

/// The report of one harvest run.
pub struct LocalRoHarvestSummary {
    pub ok: bool,
    pub error: Option<String>,
    pub queued: Vec<String>,
    pub skipped_seen: usize,
    pub skipped_mirror: usize,
    pub visits: usize,
    pub roots: Vec<String>,
}

/// The report where the harvest cannot run (any platform but Windows).
pub fn harvest_unavailable() -> (r: LocalRoHarvestSummary)
    ensures
        !r.ok,
        crate::ccc_package_sync::opt_view(r.error) == Some("Local RO harvest is Windows-only"@),
        r.queued@.len() == 0 && r.roots@.len() == 0,
        r.skipped_seen == 0 && r.skipped_mirror == 0 && r.visits == 0,
{
    LocalRoHarvestSummary {
        ok: false,
        error: Some(String::from_str("Local RO harvest is Windows-only")),
        queued: Vec::new(),
        skipped_seen: 0,
        skipped_mirror: 0,
        visits: 0,
        roots: Vec::new(),
    }
}

/// The report of a finished run.
pub fn harvest_summary(run: HarvestRun, visits: usize, roots: Vec<String>) -> (r: LocalRoHarvestSummary)
    ensures
        r.ok,
        r.error is None,
        r.queued@ == run.queued@,
        r.skipped_seen == run.skipped_seen,
        r.skipped_mirror == run.skipped_mirror,
        r.visits == visits,
        r.roots@ == roots@,
{
    LocalRoHarvestSummary {
        ok: true,
        error: None,
        queued: run.queued,
        skipped_seen: run.skipped_seen,
        skipped_mirror: run.skipped_mirror,
        visits,
        roots,
    }
}

} // verus!

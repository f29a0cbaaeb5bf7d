//! Extra PDF watch locations and size floors (`uce-pdf-watch.json`), and the rules that
//! turn folders into labelled watch roots: which rule a folder or file falls under, which
//! general-folder files are ignored, and de-duplication of watch lists.
use vstd::prelude::*;
use crate::paths::{file_name, file_name_exec, path_join};
use crate::text::{
    chars_of, contains_str, ends_with, ends_with_str, eq_str, has_sub, starts_with,
    starts_with_str, str_to_lowercase, string_of, trim, trim_chars, unicode_lower, views,
};

verus! {

/// How Office documents reach FileWisely: printed to the FileWisely printer, or converted
/// through LibreOffice staging.
#[derive(Clone, Copy, Debug, PartialEq, Eq, Structural)]
pub enum OfficeIngestionMode {
    PrinterPreferred,
    StagingConvert,
}

impl Default for OfficeIngestionMode {
    fn default() -> (r: Self)
        ensures
            r == OfficeIngestionMode::PrinterPreferred,
    {
        OfficeIngestionMode::PrinterPreferred
    }
}

pub struct PdfWatchConfig {
    /// Additional directories to scan.
    pub extra_dirs: Vec<String>,
    /// Ignore PDFs at or below this size (default 64).
    pub min_pdf_bytes: Option<u64>,
    pub word_to_pdf_enabled: bool,
    pub libreoffice_path: Option<String>,
    pub delete_word_after_convert: bool,
    pub office_ingestion_mode: OfficeIngestionMode,
    pub office_auto_print_silent: bool,
    pub office_print_prompt_fallback: bool,
    /// Extra directories watched recursively for Office files.
    pub office_intercept_extra_dirs: Vec<String>,
    pub office_debug_log_all_detected: bool,
    pub office_winword_send_prompt: bool,
    /// Watch the user's Documents / Downloads / Desktop / OneDrive too.
    pub general_document_capture_enabled: bool,
    /// Size floor for files under general folders (default 512, never below 64).
    pub general_min_file_bytes: Option<u64>,
    pub auto_discovered_ccc_dirs: Vec<String>,
    pub auto_discovered_source_dirs: Vec<String>,
}

impl Default for PdfWatchConfig {
    fn default() -> (r: Self)
        ensures
            r.extra_dirs@.len() == 0,
            r.min_pdf_bytes is None,
            r.word_to_pdf_enabled,
            r.libreoffice_path is None,
            !r.delete_word_after_convert,
            r.office_ingestion_mode == OfficeIngestionMode::PrinterPreferred,
            r.office_auto_print_silent,
            !r.office_print_prompt_fallback,
            r.office_intercept_extra_dirs@.len() == 0,
            !r.office_debug_log_all_detected,
            !r.office_winword_send_prompt,
            r.general_document_capture_enabled,
            r.general_min_file_bytes is None,
            r.auto_discovered_ccc_dirs@.len() == 0,
            r.auto_discovered_source_dirs@.len() == 0,
    {
        PdfWatchConfig {
            extra_dirs: Vec::new(),
            min_pdf_bytes: None,
            word_to_pdf_enabled: true,
            libreoffice_path: None,
            delete_word_after_convert: false,
            office_ingestion_mode: OfficeIngestionMode::PrinterPreferred,
            office_auto_print_silent: true,
            office_print_prompt_fallback: false,
            office_intercept_extra_dirs: Vec::new(),
            office_debug_log_all_detected: false,
            office_winword_send_prompt: false,
            general_document_capture_enabled: true,
            general_min_file_bytes: None,
            auto_discovered_ccc_dirs: Vec::new(),
            auto_discovered_source_dirs: Vec::new(),
        }
    }
}

/// Minimum size for PDFs and Office files under `general_*` roots: the configured value
/// (512 when unset), never below 64.
pub fn effective_general_min_bytes(cfg: &PdfWatchConfig) -> (r: u64)
    ensures
        r == ({
            let v = match cfg.general_min_file_bytes {
                Some(v) => v,
                None => 512,
            };
            if v < 64 {
                64
            } else {
                v
            }
        }),
{
    let v = match cfg.general_min_file_bytes {
        Some(v) => v,
        None => 512,
    };
    if v < 64 {
        64
    } else {
        v
    }
}

/// PDFs at or below this size are ignored: the configured value, 64 when unset.
pub fn min_pdf_bytes(cfg: &PdfWatchConfig) -> (r: u64)
    ensures
        r == match cfg.min_pdf_bytes {
            Some(v) => v,
            None => 64,
        },
{
    match cfg.min_pdf_bytes {
        Some(v) => v,
        None => 64,
    }
}

/// Rules of the general (non-CCC) user folders start with `general_`.
pub fn is_general_capture_rule(rule: &str) -> (b: bool)
    ensures
        b == starts_with(rule@, "general_"@),
{
    let v = chars_of(rule);
    starts_with_str(v.as_slice(), "general_")
}

pub open spec fn scan_source_rule(rule: Seq<char>) -> bool {
    rule == "scan_documents"@ || rule == "scan_pictures"@ || rule == "scan_vendor"@ || rule
        == "scan_filewisely"@ || rule == "source_autodiscovered"@
}

/// Folders expected to receive scanner output (images and PDFs).
pub fn is_scan_source_rule(rule: &str) -> (b: bool)
    ensures
        b == scan_source_rule(rule@),
{
    let v = chars_of(rule);
    let s = v.as_slice();
    eq_str(s, "scan_documents") || eq_str(s, "scan_pictures") || eq_str(s, "scan_vendor")
        || eq_str(s, "scan_filewisely") || eq_str(s, "source_autodiscovered")
}

/// Whether a file under a general folder is ignored, given its lower-cased file name and
/// lower-cased full path: Office lock files (`~$…`), `thumbs.db`, `desktop.ini`, partial
/// downloads, and files under a user `Temp` folder other than `Temp\CCC`.
pub open spec fn ignored_lowered(name: Seq<char>, path: Seq<char>) -> bool {
    starts_with(name, "~$"@) || name == "thumbs.db"@ || name == "desktop.ini"@ || ends_with(
        name,
        ".crdownload"@,
    ) || ends_with(name, ".partial"@) || ends_with(name, ".download"@) || (has_sub(
        path,
        "\\appdata\\local\\temp\\"@,
    ) && !has_sub(path, "\\temp\\ccc"@))
}

/// See `ignored_lowered`.
pub fn ignore_lowered_document_path(name_lower: &str, path_lower: &str) -> (b: bool)
    ensures
        b == ignored_lowered(name_lower@, path_lower@),
{
    let n = chars_of(name_lower);
    let p = chars_of(path_lower);
    let ns = n.as_slice();
    starts_with_str(ns, "~$") || eq_str(ns, "thumbs.db") || eq_str(ns, "desktop.ini")
        || ends_with_str(ns, ".crdownload") || ends_with_str(ns, ".partial") || ends_with_str(
        ns,
        ".download",
    ) || (contains_str(p.as_slice(), "\\appdata\\local\\temp\\") && !contains_str(
        p.as_slice(),
        "\\temp\\ccc",
    ))
}

pub open spec fn file_name_or_empty(path: Seq<char>) -> Seq<char> {
    match file_name(path) {
        Some(n) => n,
        None => Seq::empty(),
    }
}

/// Skip Office lock files, partial downloads and non-CCC `%TEMP%` files under general
/// folders; names and paths compare lower-cased.
pub fn should_ignore_general_document_path(path: &str) -> (b: bool)
    ensures
        b == ignored_lowered(unicode_lower(file_name_or_empty(path@)), unicode_lower(path@)),
{
    let pv = chars_of(path);
    let name = match file_name_exec(pv.as_slice()) {
        Some(n) => string_of(n.as_slice()),
        None => String::new(),
    };
    let name_lower = str_to_lowercase(name.as_str());
    let path_lower = str_to_lowercase(path);
    ignore_lowered_document_path(name_lower.as_str(), path_lower.as_str())
}

// ---------------------------------------------------------------------------
// Labels and rules
// ---------------------------------------------------------------------------

/// The label of an Office watch folder, from its lower-cased path.
pub open spec fn office_root_label(s: Seq<char>) -> Seq<char> {
    if has_sub(s, "downloads"@) {
        "downloads"@
    } else if has_sub(s, "onedrive"@) {
        "onedrive"@
    } else if has_sub(s, "desktop"@) {
        "desktop"@
    } else if has_sub(s, "documents"@) && !has_sub(s, "onedrive"@) {
        "documents"@
    } else if has_sub(s, "workfiles"@) {
        "ccc_workfiles"@
    } else if has_sub(s, "programdata"@) && has_sub(s, "ccc"@) {
        "ccc_programdata"@
    } else if has_sub(s, "filewisely"@) && has_sub(s, "scans"@) {
        "scan_filewisely"@
    } else if has_sub(s, "filewisely"@) {
        "filewisely_tree"@
    } else if has_sub(s, "scanned documents"@) || has_sub(s, "\\fax"@) || has_sub(s, "/fax"@) {
        "scan_documents"@
    } else if has_sub(s, "epson"@) || has_sub(s, "brother"@) || has_sub(s, "canon"@) || has_sub(
        s,
        "twain"@,
    ) {
        "scan_vendor"@
    } else if has_sub(s, "ccc"@) {
        "ccc_path"@
    } else {
        "pdf_watch_candidate"@
    }
}

/// See `office_root_label`.
pub fn office_root_label_of_lowered(s: &str) -> (r: String)
    ensures
        r@ == office_root_label(s@),
{
    let v = chars_of(s);
    let c = v.as_slice();
    if contains_str(c, "downloads") {
        String::from_str("downloads")
    } else if contains_str(c, "onedrive") {
        String::from_str("onedrive")
    } else if contains_str(c, "desktop") {
        String::from_str("desktop")
    } else if contains_str(c, "documents") && !contains_str(c, "onedrive") {
        String::from_str("documents")
    } else if contains_str(c, "workfiles") {
        String::from_str("ccc_workfiles")
    } else if contains_str(c, "programdata") && contains_str(c, "ccc") {
        String::from_str("ccc_programdata")
    } else if contains_str(c, "filewisely") && contains_str(c, "scans") {
        String::from_str("scan_filewisely")
    } else if contains_str(c, "filewisely") {
        String::from_str("filewisely_tree")
    } else if contains_str(c, "scanned documents") || contains_str(c, "\\fax") || contains_str(
        c,
        "/fax",
    ) {
        String::from_str("scan_documents")
    } else if contains_str(c, "epson") || contains_str(c, "brother") || contains_str(c, "canon")
        || contains_str(c, "twain") {
        String::from_str("scan_vendor")
    } else if contains_str(c, "ccc") {
        String::from_str("ccc_path")
    } else {
        String::from_str("pdf_watch_candidate")
    }
}

/// The label of an Office watch folder (compared lower-cased).
pub fn infer_office_root_label(dir: &str) -> (r: String)
    ensures
        r@ == office_root_label(unicode_lower(dir@)),
{
    let l = str_to_lowercase(dir);
    office_root_label_of_lowered(l.as_str())
}

/// Trailing `\` removed.
pub open spec fn trim_end_backslashes(s: Seq<char>) -> Seq<char>
    decreases s.len(),
{
    if s.len() > 0 && s.last() == '\\' {
        trim_end_backslashes(s.drop_last())
    } else {
        s
    }
}

/// Byte length of a string's UTF-8 text (what `str::len` gives).
pub open spec fn byte_len(s: Seq<char>) -> usize {
    vstd::utf8::encode_utf8(s).len() as usize
}

/// The rule of the watch root that is the longest prefix of `path` (lengths in bytes,
/// roots without trailing `\`; the first of equally long ones), with its length;
/// `unknown` with 0 when none is.
pub open spec fn best_rule(path: Seq<char>, roots: Seq<(Seq<char>, Seq<char>)>) -> (Seq<char>, usize)
    decreases roots.len(),
{
    if roots.len() == 0 {
        ("unknown"@, 0)
    } else {
        let prev = best_rule(path, roots.drop_last());
        let r = trim_end_backslashes(roots.last().0);
        if starts_with(path, r) && byte_len(r) > prev.1 {
            (roots.last().1, byte_len(r))
        } else {
            prev
        }
    }
}

pub open spec fn pairs_view(v: Seq<(String, String)>) -> Seq<(Seq<char>, Seq<char>)> {
    v.map_values(|p: (String, String)| (p.0@, p.1@))
}

/// Roots with their paths lower-cased.
pub open spec fn lowered_roots(v: Seq<(String, String)>) -> Seq<(Seq<char>, Seq<char>)> {
    v.map_values(|p: (String, String)| (unicode_lower(p.0@), p.1@))
}

fn trim_end_backslash_chars(v: &[char]) -> (r: Vec<char>)
    ensures
        r@ == trim_end_backslashes(v@),
{
    let mut j: usize = v.len();
    assert(v@.take(v.len() as int) =~= v@);
    while j > 0 && v[j - 1] == '\\'
        invariant
            j <= v.len(),
            trim_end_backslashes(v@) == trim_end_backslashes(v@.take(j as int)),
        decreases j,
    {
        assert(v@.take(j as int).drop_last() =~= v@.take(j - 1));
        j = j - 1;
    }
    crate::text::slice_chars(v, 0, j)
}

/// See `best_rule`; `path_lower` and the root paths are already lower-cased.
pub fn best_matching_rule(path_lower: &str, roots_lower: &Vec<(String, String)>) -> (r: String)
    ensures
        r@ == best_rule(path_lower@, pairs_view(roots_lower@)).0,
{
    let pv = chars_of(path_lower);
    let ghost rv = pairs_view(roots_lower@);
    let mut best = String::from_str("unknown");
    let mut best_len: usize = 0;
    let mut i: usize = 0;
    while i < roots_lower.len()
        invariant
            i <= roots_lower.len(),
            rv == pairs_view(roots_lower@),
            pv@ == path_lower@,
            (best@, best_len) == best_rule(path_lower@, rv.take(i as int)),
        decreases roots_lower.len() - i,
    {
        assert(rv.take(i + 1).drop_last() =~= rv.take(i as int));
        assert(rv.take(i + 1).last() == rv[i as int]);
        let rc = chars_of(roots_lower[i].0.as_str());
        let rt = trim_end_backslash_chars(rc.as_slice());
        let rts = string_of(rt.as_slice());
        let n = rts.as_str().len();
        if starts_with_str(pv.as_slice(), rts.as_str()) && n > best_len {
            best = roots_lower[i].1.clone();
            best_len = n;
        }
        i = i + 1;
    }
    assert(rv.take(roots_lower.len() as int) =~= rv);
    best
}

/// Longest-prefix match of `path` against watch roots (compared lower-cased); `unknown`
/// when none matches.
pub fn resolve_office_source_rule(path: &str, roots: &Vec<(String, String)>) -> (r: String)
    ensures
        r@ == best_rule(unicode_lower(path@), lowered_roots(roots@)).0,
{
    let mut lowered: Vec<(String, String)> = Vec::new();
    let mut i: usize = 0;
    while i < roots.len()
        invariant
            i <= roots.len(),
            pairs_view(lowered@) == lowered_roots(roots@).take(i as int),
        decreases roots.len() - i,
    {
        let l = str_to_lowercase(roots[i].0.as_str());
        let ghost prev = pairs_view(lowered@);
        lowered.push((l, roots[i].1.clone()));
        assert(pairs_view(lowered@) =~= prev.push((unicode_lower(roots@[i as int].0@), roots@[i as int].1@)));
        assert(lowered_roots(roots@).take(i + 1) =~= lowered_roots(roots@).take(i as int).push(
            lowered_roots(roots@)[i as int],
        ));
        i = i + 1;
    }
    assert(lowered_roots(roots@).take(roots.len() as int) =~= lowered_roots(roots@));
    let p = str_to_lowercase(path);
    best_matching_rule(p.as_str(), &lowered)
}

// ---------------------------------------------------------------------------
// De-duplication
// ---------------------------------------------------------------------------

/// The items whose key did not occur before, in order.
pub open spec fn first_by_key<A>(v: Seq<(A, Seq<char>)>) -> Seq<A>
    decreases v.len(),
{
    if v.len() == 0 {
        Seq::empty()
    } else {
        let prev = first_by_key(v.drop_last());
        if exists|j: int| 0 <= j < v.len() - 1 && #[trigger] v[j].1 == v.last().1 {
            prev
        } else {
            prev.push(v.last().0)
        }
    }
}

/// Keeps the first item of each key; each pair is `(item, key)`.
pub fn dedupe_keyed(items: &Vec<(String, String)>) -> (r: Vec<String>)
    ensures
        views(r@) == first_by_key(pairs_view(items@)),
{
    let ghost v = pairs_view(items@);
    let mut out: Vec<String> = Vec::new();
    let mut i: usize = 0;
    while i < items.len()
        invariant
            i <= items.len(),
            v == pairs_view(items@),
            views(out@) == first_by_key(v.take(i as int)),
        decreases items.len() - i,
    {
        let ghost t = v.take(i + 1);
        assert(t.drop_last() =~= v.take(i as int));
        assert(t.last() == v[i as int]);
        let key = chars_of(items[i].1.as_str());
        let mut seen = false;
        let mut j: usize = 0;
        while j < i
            invariant
                j <= i < items.len(),
                v == pairs_view(items@),
                key@ == v[i as int].1,
                seen == exists|k: int| 0 <= k < j && #[trigger] v[k].1 == v[i as int].1,
            decreases i - j,
        {
            let other = chars_of(items[j].1.as_str());
            assert(other@ == v[j as int].1);
            if crate::text::chars_eq(other.as_slice(), key.as_slice()) {
                seen = true;
            }
            assert(seen == exists|k: int| 0 <= k < j + 1 && #[trigger] v[k].1 == v[i as int].1) by {
                if exists|k: int| 0 <= k < j + 1 && #[trigger] v[k].1 == v[i as int].1 {
                    let k = choose|k: int| 0 <= k < j + 1 && #[trigger] v[k].1 == v[i as int].1;
                    if k < j {
                        assert(exists|k2: int| 0 <= k2 < j && #[trigger] v[k2].1 == v[i as int].1);
                    }
                }
            }
            j = j + 1;
        }
        assert(seen == exists|k: int| 0 <= k < t.len() - 1 && #[trigger] t[k].1 == t.last().1) by {
            if seen {
                let k = choose|k: int| 0 <= k < i && #[trigger] v[k].1 == v[i as int].1;
                assert(t[k] == v[k]);
            }
            if exists|k: int| 0 <= k < t.len() - 1 && #[trigger] t[k].1 == t.last().1 {
                let k = choose|k: int| 0 <= k < t.len() - 1 && #[trigger] t[k].1 == t.last().1;
                assert(t[k] == v[k]);
            }
        }
        if !seen {
            let ghost prev = views(out@);
            out.push(items[i].0.clone());
            assert(views(out@) =~= prev.push(v[i as int].0));
        }
        i = i + 1;
    }
    assert(v.take(items.len() as int) =~= v);
    out
}

/// Directories keyed by their lower-cased path.
pub open spec fn lowered_keys(v: Seq<Seq<char>>) -> Seq<(Seq<char>, Seq<char>)> {
    v.map_values(|d: Seq<char>| (d, unicode_lower(d)))
}

/// The directories without repeats, comparing paths lower-cased; first occurrence kept.
pub fn dedupe_dirs(dirs: &Vec<String>) -> (r: Vec<String>)
    ensures
        views(r@) == first_by_key(lowered_keys(views(dirs@))),
{
    let mut keyed: Vec<(String, String)> = Vec::new();
    let mut i: usize = 0;
    while i < dirs.len()
        invariant
            i <= dirs.len(),
            pairs_view(keyed@) == lowered_keys(views(dirs@)).take(i as int),
        decreases dirs.len() - i,
    {
        let l = str_to_lowercase(dirs[i].as_str());
        let ghost prev = pairs_view(keyed@);
        keyed.push((dirs[i].clone(), l));
        assert(pairs_view(keyed@) =~= prev.push((dirs@[i as int]@, unicode_lower(dirs@[i as int]@))));
        assert(lowered_keys(views(dirs@)).take(i + 1) =~= lowered_keys(views(dirs@)).take(i as int).push(
            lowered_keys(views(dirs@))[i as int],
        ));
        i = i + 1;
    }
    assert(lowered_keys(views(dirs@)).take(dirs.len() as int) =~= lowered_keys(views(dirs@)));
    dedupe_keyed(&keyed)
}

// ---------------------------------------------------------------------------
// Candidate folders and watch lists
// ---------------------------------------------------------------------------

fn joined(base: &str, seg: &str) -> (r: String)
    ensures
        r@ == path_join(base@, seg@),
{
    let b = chars_of(base);
    let sg = chars_of(seg);
    let j = crate::paths::join_chars(b.as_slice(), sg.as_slice());
    string_of(j.as_slice())
}

fn pair(path: String, rule: &str) -> (r: (String, String))
    ensures
        r.0@ == path@,
        r.1@ == rule@,
{
    (path, String::from_str(rule))
}

/// The general user folders under a profile directory, with their rules.
pub open spec fn general_candidates(up: Seq<char>) -> Seq<(Seq<char>, Seq<char>)> {
    seq![
        (path_join(up, "Downloads"@), "general_downloads"@),
        (path_join(up, "Desktop"@), "general_desktop"@),
        (path_join(up, "Documents"@), "general_documents"@),
        (path_join(path_join(up, "OneDrive"@), "Desktop"@), "general_onedrive_desktop"@),
        (path_join(path_join(up, "OneDrive"@), "Documents"@), "general_onedrive_documents"@),
    ]
}

/// The general user folders under the profile directory `user_profile`, with their
/// `general_*` rules; each is watched where it exists.
pub fn general_user_document_candidates(user_profile: &str) -> (r: Vec<(String, String)>)
    ensures
        pairs_view(r@) == general_candidates(user_profile@),
{
    let od = joined(user_profile, "OneDrive");
    let mut r: Vec<(String, String)> = Vec::new();
    r.push(pair(joined(user_profile, "Downloads"), "general_downloads"));
    r.push(pair(joined(user_profile, "Desktop"), "general_desktop"));
    r.push(pair(joined(user_profile, "Documents"), "general_documents"));
    r.push(pair(joined(od.as_str(), "Desktop"), "general_onedrive_desktop"));
    r.push(pair(joined(od.as_str(), "Documents"), "general_onedrive_documents"));
    assert(pairs_view(r@) =~= general_candidates(user_profile@));
    r
}

pub open spec fn firsts(v: Seq<(Seq<char>, Seq<char>)>) -> Seq<Seq<char>> {
    v.map_values(|p: (Seq<char>, Seq<char>)| p.0)
}

/// The folders of the general roots found.
pub fn general_user_document_dirs(roots: &Vec<(String, String)>) -> (r: Vec<String>)
    ensures
        views(r@) == firsts(pairs_view(roots@)),
{
    let mut r: Vec<String> = Vec::new();
    let mut i: usize = 0;
    while i < roots.len()
        invariant
            i <= roots.len(),
            views(r@) == firsts(pairs_view(roots@)).take(i as int),
        decreases roots.len() - i,
    {
        let ghost prev = views(r@);
        r.push(roots[i].0.clone());
        assert(views(r@) =~= prev.push(roots@[i as int].0@));
        assert(firsts(pairs_view(roots@)).take(i + 1) =~= firsts(pairs_view(roots@)).take(
            i as int,
        ).push(roots@[i as int].0@));
        i = i + 1;
    }
    assert(firsts(pairs_view(roots@)).take(roots.len() as int) =~= firsts(pairs_view(roots@)));
    r
}

/// Scan destinations under a profile directory: `(parent, child, rule)`.
pub open spec fn scan_candidates(up: Seq<char>) -> Seq<(Seq<char>, Seq<char>)> {
    let pictures = path_join(up, "Pictures"@);
    let documents = path_join(up, "Documents"@);
    let onedrive = path_join(up, "OneDrive"@);
    seq![
        (path_join(pictures, "Scanned Documents"@), "scan_pictures"@),
        (path_join(documents, "Scanned Documents"@), "scan_documents"@),
        (path_join(documents, "Fax"@), "scan_documents"@),
        (path_join(documents, "EPSON Scan"@), "scan_vendor"@),
        (path_join(documents, "Epson Scan"@), "scan_vendor"@),
        (path_join(documents, "Epson"@), "scan_vendor"@),
        (path_join(documents, "Brother"@), "scan_vendor"@),
        (path_join(pictures, "EPSON Scan"@), "scan_vendor"@),
        (path_join(pictures, "Epson"@), "scan_vendor"@),
        (path_join(pictures, "Brother"@), "scan_vendor"@),
        (path_join(onedrive, "Pictures\\Scanned Documents"@), "scan_pictures"@),
        (path_join(onedrive, "Documents\\Scanned Documents"@), "scan_documents"@),
        (path_join(onedrive, "Documents\\EPSON Scan"@), "scan_vendor"@),
        (path_join(onedrive, "Documents\\Brother"@), "scan_vendor"@),
    ]
}

/// Default scan destinations: `C:\FileWisely\Scans` (always watched) first, then the
/// Windows and vendor scan folders under the profile directory (each watched where it
/// exists).
pub fn scan_destination_candidates(user_profile: Option<&str>) -> (r: Vec<(String, String)>)
    ensures
        pairs_view(r@) == seq![(crate::config::print_config::FW_SCANS_DIR@, "scan_filewisely"@)]
            + match user_profile {
            Some(up) => scan_candidates(up@),
            None => Seq::empty(),
        },
{
    let mut r: Vec<(String, String)> = Vec::new();
    r.push(pair(String::from_str(crate::config::print_config::FW_SCANS_DIR), "scan_filewisely"));
    match user_profile {
        None => {
            assert(pairs_view(r@) =~= seq![(crate::config::print_config::FW_SCANS_DIR@, "scan_filewisely"@)]
                + Seq::<(Seq<char>, Seq<char>)>::empty());
        },
        Some(up) => {
            let pictures = joined(up, "Pictures");
            let documents = joined(up, "Documents");
            let onedrive = joined(up, "OneDrive");
            let p = pictures.as_str();
            let d = documents.as_str();
            let o = onedrive.as_str();
            r.push(pair(joined(p, "Scanned Documents"), "scan_pictures"));
            r.push(pair(joined(d, "Scanned Documents"), "scan_documents"));
            r.push(pair(joined(d, "Fax"), "scan_documents"));
            r.push(pair(joined(d, "EPSON Scan"), "scan_vendor"));
            r.push(pair(joined(d, "Epson Scan"), "scan_vendor"));
            r.push(pair(joined(d, "Epson"), "scan_vendor"));
            r.push(pair(joined(d, "Brother"), "scan_vendor"));
            r.push(pair(joined(p, "EPSON Scan"), "scan_vendor"));
            r.push(pair(joined(p, "Epson"), "scan_vendor"));
            r.push(pair(joined(p, "Brother"), "scan_vendor"));
            r.push(pair(joined(o, "Pictures\\Scanned Documents"), "scan_pictures"));
            r.push(pair(joined(o, "Documents\\Scanned Documents"), "scan_documents"));
            r.push(pair(joined(o, "Documents\\EPSON Scan"), "scan_vendor"));
            r.push(pair(joined(o, "Documents\\Brother"), "scan_vendor"));
            assert(pairs_view(r@) =~= seq![(crate::config::print_config::FW_SCANS_DIR@, "scan_filewisely"@)]
                + scan_candidates(up@));
        },
    }
    r
}

/// Configured folder names, trimmed, the blank ones dropped.
pub open spec fn trimmed_dirs(v: Seq<Seq<char>>) -> Seq<Seq<char>>
    decreases v.len(),
{
    if v.len() == 0 {
        Seq::empty()
    } else if trim(v.last()).len() == 0 {
        trimmed_dirs(v.drop_last())
    } else {
        trimmed_dirs(v.drop_last()).push(trim(v.last()))
    }
}

pub open spec fn labelled(v: Seq<Seq<char>>, rule: Seq<char>) -> Seq<(Seq<char>, Seq<char>)> {
    v.map_values(|d: Seq<char>| (d, rule))
}

fn push_trimmed(out: &mut Vec<String>, v: &Vec<String>)
    ensures
        views(final(out)@) == views(old(out)@) + trimmed_dirs(views(v@)),
{
    let ghost vv = views(v@);
    let ghost o0 = views(out@);
    let mut i: usize = 0;
    while i < v.len()
        invariant
            i <= v.len(),
            vv == views(v@),
            views(out@) == o0 + trimmed_dirs(vv.take(i as int)),
        decreases v.len() - i,
    {
        assert(vv.take(i + 1).drop_last() =~= vv.take(i as int));
        assert(vv.take(i + 1).last() == v@[i as int]@);
        let t = trim_chars(v[i].as_str());
        if t.len() > 0 {
            let ghost prev = views(out@);
            out.push(string_of(t.as_slice()));
            assert(views(out@) =~= prev.push(t@));
        }
        i = i + 1;
    }
    assert(vv.take(v.len() as int) =~= vv);
}

fn push_labelled(out: &mut Vec<(String, String)>, dirs: &Vec<String>, rule: &str)
    ensures
        pairs_view(final(out)@) == pairs_view(old(out)@) + labelled(views(dirs@), rule@),
{
    let ghost o0 = pairs_view(out@);
    let mut i: usize = 0;
    while i < dirs.len()
        invariant
            i <= dirs.len(),
            pairs_view(out@) == o0 + labelled(views(dirs@), rule@).take(i as int),
        decreases dirs.len() - i,
    {
        let ghost prev = pairs_view(out@);
        out.push((dirs[i].clone(), String::from_str(rule)));
        assert(pairs_view(out@) =~= prev.push((dirs@[i as int]@, rule@)));
        assert(labelled(views(dirs@), rule@).take(i + 1) =~= labelled(views(dirs@), rule@).take(
            i as int,
        ).push((dirs@[i as int]@, rule@)));
        i = i + 1;
    }
    assert(labelled(views(dirs@), rule@).take(dirs.len() as int) =~= labelled(views(dirs@), rule@));
}

fn push_pairs(out: &mut Vec<(String, String)>, v: &Vec<(String, String)>)
    ensures
        pairs_view(final(out)@) == pairs_view(old(out)@) + pairs_view(v@),
{
    let ghost o0 = pairs_view(out@);
    let mut i: usize = 0;
    while i < v.len()
        invariant
            i <= v.len(),
            pairs_view(out@) == o0 + pairs_view(v@).take(i as int),
        decreases v.len() - i,
    {
        let ghost prev = pairs_view(out@);
        out.push((v[i].0.clone(), v[i].1.clone()));
        assert(pairs_view(out@) =~= prev.push(pairs_view(v@)[i as int]));
        assert(pairs_view(v@).take(i + 1) =~= pairs_view(v@).take(i as int).push(
            pairs_view(v@)[i as int],
        ));
        i = i + 1;
    }
    assert(pairs_view(v@).take(v.len() as int) =~= pairs_view(v@));
}

/// Core folders labelled by `office_root_label` of their lower-cased path.
pub open spec fn core_labelled(v: Seq<String>) -> Seq<(Seq<char>, Seq<char>)> {
    v.map_values(|d: String| (d@, office_root_label(unicode_lower(d@))))
}

/// The auto-discovered CCC and source folders, labelled.
pub open spec fn auto_roots(cfg: PdfWatchConfig) -> Seq<(Seq<char>, Seq<char>)> {
    labelled(trimmed_dirs(views(cfg.auto_discovered_ccc_dirs@)), "ccc_autodiscovered"@)
        + labelled(trimmed_dirs(views(cfg.auto_discovered_source_dirs@)), "source_autodiscovered"@)
}

/// Office interception roots before de-duplication: the primary incoming folder first,
/// then (unless only CCC Temp is watched) the CCC core folders, the general folders when
/// general capture is on, the configured extra Office folders, the auto-discovered
/// folders, and the scan destinations. `core`, `general` and `scan` are the folders
/// found on disk that are neither the primary folder nor inside it.
pub open spec fn office_roots_plan(
    primary: Seq<char>,
    ccc_temp_only: bool,
    cfg: PdfWatchConfig,
    seed_office_dirs: Seq<Seq<char>>,
    core: Seq<String>,
    general: Seq<(Seq<char>, Seq<char>)>,
    scan: Seq<(Seq<char>, Seq<char>)>,
) -> Seq<(Seq<char>, Seq<char>)> {
    let head = seq![
        (
            primary,
            if ccc_temp_only {
                "ccc_temp"@
            } else {
                "filewisely_incoming"@
            },
        ),
    ];
    if ccc_temp_only {
        head + auto_roots(cfg)
    } else {
        head + core_labelled(core) + (if cfg.general_document_capture_enabled {
            general
        } else {
            Seq::empty()
        }) + labelled(
            trimmed_dirs(views(cfg.office_intercept_extra_dirs@) + seed_office_dirs),
            "office_intercept_extra"@,
        ) + auto_roots(cfg) + scan
    }
}

/// See `office_roots_plan`.
pub fn office_intercept_roots(
    primary: &str,
    ccc_temp_only: bool,
    cfg: &PdfWatchConfig,
    seed_office_dirs: &Vec<String>,
    core: &Vec<String>,
    general: &Vec<(String, String)>,
    scan: &Vec<(String, String)>,
) -> (r: Vec<(String, String)>)
    ensures
        pairs_view(r@) == office_roots_plan(
            primary@,
            ccc_temp_only,
            *cfg,
            views(seed_office_dirs@),
            core@,
            pairs_view(general@),
            pairs_view(scan@),
        ),
{
    let mut out: Vec<(String, String)> = Vec::new();
    let first_rule = if ccc_temp_only {
        "ccc_temp"
    } else {
        "filewisely_incoming"
    };
    out.push((String::from_str(primary), String::from_str(first_rule)));
    let ghost head = pairs_view(out@);
    let mut auto_ccc: Vec<String> = Vec::new();
    push_trimmed(&mut auto_ccc, &cfg.auto_discovered_ccc_dirs);
    let mut auto_src: Vec<String> = Vec::new();
    push_trimmed(&mut auto_src, &cfg.auto_discovered_source_dirs);
    assert(views(auto_ccc@) =~= trimmed_dirs(views(cfg.auto_discovered_ccc_dirs@)));
    assert(views(auto_src@) =~= trimmed_dirs(views(cfg.auto_discovered_source_dirs@)));
    if ccc_temp_only {
        push_labelled(&mut out, &auto_ccc, "ccc_autodiscovered");
        push_labelled(&mut out, &auto_src, "source_autodiscovered");
        assert(pairs_view(out@) =~= head + auto_roots(*cfg));
        return out;
    }
    let ghost mut acc = head;
    let mut i: usize = 0;
    while i < core.len()
        invariant
            i <= core.len(),
            pairs_view(out@) == head + core_labelled(core@).take(i as int),
        decreases core.len() - i,
    {
        let label = infer_office_root_label(core[i].as_str());
        let ghost prev = pairs_view(out@);
        out.push((core[i].clone(), label));
        assert(pairs_view(out@) =~= prev.push(core_labelled(core@)[i as int]));
        assert(core_labelled(core@).take(i + 1) =~= core_labelled(core@).take(i as int).push(
            core_labelled(core@)[i as int],
        ));
        i = i + 1;
    }
    assert(core_labelled(core@).take(core.len() as int) =~= core_labelled(core@));
    let ghost after_core = pairs_view(out@);
    if cfg.general_document_capture_enabled {
        push_pairs(&mut out, general);
    }
    let ghost after_general = pairs_view(out@);
    let mut extra: Vec<String> = Vec::new();
    push_trimmed(&mut extra, &cfg.office_intercept_extra_dirs);
    push_trimmed(&mut extra, seed_office_dirs);
    proof {
        lemma_trimmed_dirs_append(views(cfg.office_intercept_extra_dirs@), views(seed_office_dirs@));
    }
    assert(views(extra@) =~= trimmed_dirs(views(cfg.office_intercept_extra_dirs@) + views(seed_office_dirs@)));
    push_labelled(&mut out, &extra, "office_intercept_extra");
    push_labelled(&mut out, &auto_ccc, "ccc_autodiscovered");
    push_labelled(&mut out, &auto_src, "source_autodiscovered");
    push_pairs(&mut out, scan);
    assert(pairs_view(out@) =~= office_roots_plan(
        primary@,
        ccc_temp_only,
        *cfg,
        views(seed_office_dirs@),
        core@,
        pairs_view(general@),
        pairs_view(scan@),
    ));
    out
}

proof fn lemma_trimmed_dirs_append(a: Seq<Seq<char>>, b: Seq<Seq<char>>)
    ensures
        trimmed_dirs(a + b) == trimmed_dirs(a) + trimmed_dirs(b),
    decreases b.len(),
{
    if b.len() == 0 {
        assert(a + b =~= a);
        assert(trimmed_dirs(a) + trimmed_dirs(b) =~= trimmed_dirs(a));
    } else {
        lemma_trimmed_dirs_append(a, b.drop_last());
        assert((a + b).drop_last() =~= a + b.drop_last());
        assert((a + b).last() == b.last());
        if trim(b.last()).len() == 0 {
        } else {
            assert(trimmed_dirs(a) + trimmed_dirs(b.drop_last()).push(trim(b.last())) =~= (
            trimmed_dirs(a) + trimmed_dirs(b.drop_last())).push(trim(b.last())));
        }
    }
}

/// The PDF watch list: in CCC-Temp-only mode that folder and its `.uce_staging`; else
/// the CCC core folders, the general folders when general capture is on, the scan
/// destinations and the auto-discovered source folders; without repeats (compared
/// lower-cased).
pub open spec fn pdf_dirs_plan(
    ccc_temp_only: bool,
    ccc_temp_path: Seq<char>,
    cfg: PdfWatchConfig,
    core: Seq<Seq<char>>,
    general: Seq<Seq<char>>,
    scan: Seq<Seq<char>>,
) -> Seq<Seq<char>> {
    if ccc_temp_only {
        seq![ccc_temp_path, path_join(ccc_temp_path, ".uce_staging"@)]
    } else {
        core + (if cfg.general_document_capture_enabled {
            general
        } else {
            Seq::empty()
        }) + scan + trimmed_dirs(views(cfg.auto_discovered_source_dirs@))
    }
}

/// See `pdf_dirs_plan`; the list returned is that one with repeats removed.
pub fn candidate_pdf_dirs(
    ccc_temp_only: bool,
    ccc_temp_path: &str,
    cfg: &PdfWatchConfig,
    core: &Vec<String>,
    general: &Vec<String>,
    scan: &Vec<String>,
) -> (r: Vec<String>)
    ensures
        views(r@) == first_by_key(
            lowered_keys(
                pdf_dirs_plan(
                    ccc_temp_only,
                    ccc_temp_path@,
                    *cfg,
                    views(core@),
                    views(general@),
                    views(scan@),
                ),
            ),
        ),
{
    let mut dirs: Vec<String> = Vec::new();
    if ccc_temp_only {
        dirs.push(String::from_str(ccc_temp_path));
        dirs.push(joined(ccc_temp_path, ".uce_staging"));
        assert(views(dirs@) =~= pdf_dirs_plan(
            ccc_temp_only,
            ccc_temp_path@,
            *cfg,
            views(core@),
            views(general@),
            views(scan@),
        ));
    } else {
        append_all(&mut dirs, core);
        if cfg.general_document_capture_enabled {
            append_all(&mut dirs, general);
        }
        append_all(&mut dirs, scan);
        push_trimmed(&mut dirs, &cfg.auto_discovered_source_dirs);
        assert(views(dirs@) =~= pdf_dirs_plan(
            ccc_temp_only,
            ccc_temp_path@,
            *cfg,
            views(core@),
            views(general@),
            views(scan@),
        ));
    }
    dedupe_dirs(&dirs)
}

fn append_all(out: &mut Vec<String>, v: &Vec<String>)
    ensures
        views(final(out)@) == views(old(out)@) + views(v@),
{
    let ghost o0 = views(out@);
    let mut i: usize = 0;
    while i < v.len()
        invariant
            i <= v.len(),
            views(out@) == o0 + views(v@).take(i as int),
        decreases v.len() - i,
    {
        let ghost prev = views(out@);
        out.push(v[i].clone());
        assert(views(out@) =~= prev.push(v@[i as int]@));
        assert(views(v@).take(i + 1) =~= views(v@).take(i as int).push(v@[i as int]@));
        i = i + 1;
    }
    assert(views(v@).take(v.len() as int) =~= views(v@));
}

/// A watch root with the key it is de-duplicated by (its canonical path, lower-cased).
pub open spec fn keyed_roots(v: Seq<(String, String, String)>) -> Seq<((Seq<char>, Seq<char>), Seq<char>)> {
    v.map_values(|t: (String, String, String)| ((t.0@, t.1@), t.2@))
}

/// Office watch roots without repeats: the first root of each key is kept. Each item is
/// `(path, rule, key)`.
pub fn dedupe_office_watch_roots(roots: &Vec<(String, String, String)>) -> (r: Vec<(String, String)>)
    ensures
        pairs_view(r@) == first_by_key(keyed_roots(roots@)),
{
    let ghost v = keyed_roots(roots@);
    let mut out: Vec<(String, String)> = Vec::new();
    let mut i: usize = 0;
    while i < roots.len()
        invariant
            i <= roots.len(),
            v == keyed_roots(roots@),
            pairs_view(out@) == first_by_key(v.take(i as int)),
        decreases roots.len() - i,
    {
        let ghost t = v.take(i + 1);
        assert(t.drop_last() =~= v.take(i as int));
        assert(t.last() == v[i as int]);
        let key = chars_of(roots[i].2.as_str());
        let mut seen = false;
        let mut j: usize = 0;
        while j < i
            invariant
                j <= i < roots.len(),
                v == keyed_roots(roots@),
                key@ == v[i as int].1,
                seen == exists|k: int| 0 <= k < j && #[trigger] v[k].1 == v[i as int].1,
            decreases i - j,
        {
            let other = chars_of(roots[j].2.as_str());
            assert(other@ == v[j as int].1);
            if crate::text::chars_eq(other.as_slice(), key.as_slice()) {
                seen = true;
            }
            assert(seen == exists|k: int| 0 <= k < j + 1 && #[trigger] v[k].1 == v[i as int].1) by {
                if exists|k: int| 0 <= k < j + 1 && #[trigger] v[k].1 == v[i as int].1 {
                    let k = choose|k: int| 0 <= k < j + 1 && #[trigger] v[k].1 == v[i as int].1;
                    if k < j {
                        assert(exists|k2: int| 0 <= k2 < j && #[trigger] v[k2].1 == v[i as int].1);
                    }
                }
            }
            j = j + 1;
        }
        assert(seen == exists|k: int| 0 <= k < t.len() - 1 && #[trigger] t[k].1 == t.last().1) by {
            if seen {
                let k = choose|k: int| 0 <= k < i && #[trigger] v[k].1 == v[i as int].1;
                assert(t[k] == v[k]);
            }
            if exists|k: int| 0 <= k < t.len() - 1 && #[trigger] t[k].1 == t.last().1 {
                let k = choose|k: int| 0 <= k < t.len() - 1 && #[trigger] t[k].1 == t.last().1;
                assert(t[k] == v[k]);
            }
        }
        if !seen {
            let ghost prev = pairs_view(out@);
            out.push((roots[i].0.clone(), roots[i].1.clone()));
            assert(pairs_view(out@) =~= prev.push(v[i as int].0));
        }
        i = i + 1;
    }
    assert(v.take(roots.len() as int) =~= v);
    out
}


proof fn lemma_first_by_key_from<A>(v: Seq<(A, Seq<char>)>)
    ensures
        forall|i: int| 0 <= i < first_by_key(v).len() ==> exists|j: int|
            0 <= j < v.len() && #[trigger] first_by_key(v)[i] == v[j].0 && forall|k: int|
                0 <= k < j ==> #[trigger] v[k].1 != v[j].1,
    decreases v.len(),
{
    if v.len() > 0 {
        let u = v.drop_last();
        lemma_first_by_key_from(u);
        let p = first_by_key(u);
        assert forall|i: int| 0 <= i < p.len() implies exists|j: int|
            0 <= j < v.len() && #[trigger] p[i] == v[j].0 && forall|k: int| 0 <= k < j ==> #[trigger] v[k].1 != v[j].1 by {
            let j = choose|j: int|
                0 <= j < u.len() && #[trigger] p[i] == u[j].0 && forall|k: int| 0 <= k < j ==> #[trigger] u[k].1 != u[j].1;
            assert(v[j] == u[j]);
            assert forall|k: int| 0 <= k < j implies #[trigger] v[k].1 != v[j].1 by {
                assert(v[k] == u[k]);
            }
        }
        if !(exists|j: int| 0 <= j < v.len() - 1 && #[trigger] v[j].1 == v.last().1) {
            let r = p.push(v.last().0);
            assert forall|i: int| 0 <= i < r.len() implies exists|j: int|
                0 <= j < v.len() && #[trigger] r[i] == v[j].0 && forall|k: int| 0 <= k < j ==> #[trigger] v[k].1 != v[j].1 by {
                if i == p.len() {
                    let j = v.len() - 1;
                    assert(r[i] == v[j].0);
                    assert forall|k: int| 0 <= k < j implies #[trigger] v[k].1 != v[j].1 by {
                        if v[k].1 == v[j].1 {
                            assert(v[k].1 == v.last().1);
                        }
                    }
                } else {
                    assert(r[i] == p[i]);
                }
            }
        }
    }
}

/// Deduplicating directories keeps each one once: no two kept directories are the same
/// path ignoring case (lower-cased), and each kept one is the first of its kind.
pub proof fn law_dedupe_dirs_unique(dirs: Seq<Seq<char>>)
    ensures
        ({
            let r = first_by_key(lowered_keys(dirs));
            forall|i: int, j: int| 0 <= i < j < r.len() ==> unicode_lower(#[trigger] r[i]) != unicode_lower(#[trigger] r[j])
        }),
    decreases dirs.len(),
{
    let v = lowered_keys(dirs);
    if dirs.len() > 0 {
        assert(lowered_keys(dirs.drop_last()) =~= v.drop_last());
        law_dedupe_dirs_unique(dirs.drop_last());
        let p = first_by_key(v.drop_last());
        lemma_first_by_key_from(v.drop_last());
        if !(exists|j: int| 0 <= j < v.len() - 1 && #[trigger] v[j].1 == v.last().1) {
            let r = p.push(v.last().0);
            assert forall|i: int, j: int| 0 <= i < j < r.len() implies unicode_lower(#[trigger] r[i]) != unicode_lower(#[trigger] r[j]) by {
                if j == p.len() {
                    let u = v.drop_last();
                    let k = choose|k: int|
                        0 <= k < u.len() && #[trigger] p[i] == u[k].0 && forall|m: int| 0 <= m < k ==> #[trigger] u[m].1 != u[k].1;
                    assert(u[k].1 == unicode_lower(u[k].0));
                    assert(v[k] == u[k]);
                    assert(v.last().1 == unicode_lower(v.last().0));
                    if unicode_lower(r[i]) == unicode_lower(r[j]) {
                        assert(v[k].1 == v.last().1);
                    }
                } else {
                    assert(r[i] == p[i] && r[j] == p[j]);
                }
            }
        }
    }
}

} // verus!

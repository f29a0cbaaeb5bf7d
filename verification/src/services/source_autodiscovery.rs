//! Discovering the folders where this PC prints and scans: which foreground windows are
//! scan or print dialogs, which files look like captures, which folders may be persisted,
//! and how newly learned folders merge into the configured list.
use vstd::prelude::*;
use crate::paths::{extension, file_name};
use crate::text::{
    ascii_lower, contains_str, eq_ignore_ascii_case, ends_with, has_sub, starts_with, trim,
    unicode_lower, views,
};

verus! {

/// At most this many folders are kept in `auto_discovered_source_dirs`.
pub const MAX_DISCOVERED: usize = 40;

/// At most this many candidate folders are reported.
pub const MAX_CANDIDATES: usize = 120;

/// Whether a foreground window (`"{app} {title}"`, lower-cased) is a scanner, camera or
/// print-to-PDF dialog.
pub open spec fn scan_or_print_dialog(app_name: Seq<char>, title: Seq<char>) -> bool {
    let h = unicode_lower(app_name + " "@ + title);
    has_sub(h, "scan using"@) || has_sub(h, "acquiring data"@) || has_sub(
        h,
        "which device do you want to use"@,
    ) || has_sub(h, "windows image acquisition"@) || has_sub(h, "wia"@) || has_sub(h, "twain"@)
        || has_sub(h, "epson ds"@) || has_sub(h, "epson scan"@) || has_sub(h, "brother"@)
        || has_sub(h, "hp scan"@) || has_sub(h, "scansnap"@) || has_sub(h, "canon"@) || has_sub(
        h,
        "attach - from camera"@,
    ) || has_sub(h, "attach from camera"@) || has_sub(h, "camera/scanner"@) || has_sub(
        h,
        "windows fax and scan"@,
    ) || has_sub(h, "save print output as"@) || has_sub(h, "print to pdf"@) || has_sub(
        h,
        "filewisely printer"@,
    ) || has_sub(h, "bullzip"@)
}

pub fn is_scan_or_print_dialog(app_name: &str, title: &str) -> (b: bool)
    ensures
        b == scan_or_print_dialog(app_name@, title@),
{
    let mut s = String::from_str(app_name);
    s.append(" ");
    s.append(title);
    let h = crate::text::lower_chars(s.as_str());
    let h = h.as_slice();
    contains_str(h, "scan using") || contains_str(h, "acquiring data") || contains_str(
        h,
        "which device do you want to use",
    ) || contains_str(h, "windows image acquisition") || contains_str(h, "wia") || contains_str(
        h,
        "twain",
    ) || contains_str(h, "epson ds") || contains_str(h, "epson scan") || contains_str(h, "brother")
        || contains_str(h, "hp scan") || contains_str(h, "scansnap") || contains_str(h, "canon")
        || contains_str(h, "attach - from camera") || contains_str(h, "attach from camera")
        || contains_str(h, "camera/scanner") || contains_str(h, "windows fax and scan")
        || contains_str(h, "save print output as") || contains_str(h, "print to pdf")
        || contains_str(h, "filewisely printer") || contains_str(h, "bullzip")
}

/// A PDF or image capture: extension `pdf`, `jpg`, `jpeg`, `png`, `tif`, `tiff` or `bmp`
/// (lower-cased).
pub open spec fn capture_ext(path: Seq<char>) -> bool {
    match extension(path) {
        Some(e) => {
            let l = unicode_lower(e);
            l == "pdf"@ || l == "jpg"@ || l == "jpeg"@ || l == "png"@ || l == "tif"@ || l == "tiff"@
                || l == "bmp"@
        },
        None => false,
    }
}

pub fn is_capture_ext(path: &str) -> (b: bool)
    ensures
        b == capture_ext(path@),
{
    let pv = crate::text::chars_of(path);
    match crate::paths::extension_exec(pv.as_slice()) {
        Some(e) => {
            let es = crate::text::string_of(e.as_slice());
            let l = crate::text::lower_chars(es.as_str());
            let l = l.as_slice();
            crate::text::eq_str(l, "pdf") || crate::text::eq_str(l, "jpg") || crate::text::eq_str(
                l,
                "jpeg",
            ) || crate::text::eq_str(l, "png") || crate::text::eq_str(l, "tif")
                || crate::text::eq_str(l, "tiff") || crate::text::eq_str(l, "bmp")
        },
        None => false,
    }
}

/// The lower-cased file name of a path, empty when it has none.
pub open spec fn lower_name(path: Seq<char>) -> Seq<char> {
    unicode_lower(
        match file_name(path) {
            Some(n) => n,
            None => Seq::empty(),
        },
    )
}

fn lower_name_exec(path: &str) -> (r: Vec<char>)
    ensures
        r@ == lower_name(path@),
{
    let pv = crate::text::chars_of(path);
    let n = match crate::paths::file_name_exec(pv.as_slice()) {
        Some(n) => crate::text::string_of(n.as_slice()),
        None => String::new(),
    };
    crate::text::lower_chars(n.as_str())
}

/// A file name that looks like a scan: it mentions a scanner vendor or word, or starts
/// with `image`.
pub open spec fn scan_like_name(path: Seq<char>) -> bool {
    let n = lower_name(path);
    has_sub(n, "scan"@) || has_sub(n, "wia"@) || has_sub(n, "epson"@) || has_sub(n, "brother"@)
        || has_sub(n, "scansnap"@) || has_sub(n, "canon"@) || has_sub(n, "hp scan"@) || has_sub(
        n,
        "twain"@,
    ) || has_sub(n, "img"@) || starts_with(n, "image"@) || has_sub(n, "document"@)
}

pub fn looks_like_scan_name(path: &str) -> (b: bool)
    ensures
        b == scan_like_name(path@),
{
    let n = lower_name_exec(path);
    let n = n.as_slice();
    contains_str(n, "scan") || contains_str(n, "wia") || contains_str(n, "epson") || contains_str(
        n,
        "brother",
    ) || contains_str(n, "scansnap") || contains_str(n, "canon") || contains_str(n, "hp scan")
        || contains_str(n, "twain") || contains_str(n, "img") || crate::text::starts_with_str(
        n,
        "image",
    ) || contains_str(n, "document")
}

/// Whether a folder may be remembered: not under Windows or Program Files, not a bare
/// temp folder, and inside the local temp tree only when it is the CCC temp tree or its
/// own name mentions a scanner.
pub open spec fn persistable_folder(p: Seq<char>) -> bool {
    let s = unicode_lower(p);
    if has_sub(s, "\\windows\\"@) || starts_with(s, "c:\\windows"@) {
        false
    } else if has_sub(s, "\\program files\\"@) || has_sub(s, "\\program files (x86)\\"@) {
        false
    } else if ends_with(s, "\\temp"@) || ends_with(s, "\\tmp"@) || ends_with(
        s,
        "\\appdata\\local\\temp"@,
    ) {
        false
    } else if has_sub(s, "\\appdata\\local\\temp\\"@) && !has_sub(s, "\\temp\\ccc"@) {
        let n = lower_name(p);
        has_sub(n, "wia"@) || has_sub(n, "epson"@) || has_sub(n, "scan"@) || has_sub(n, "twain"@)
            || has_sub(n, "brother"@)
    } else {
        true
    }
}

pub fn safe_persistable_folder(p: &str) -> (b: bool)
    ensures
        b == persistable_folder(p@),
{
    let s = crate::text::lower_chars(p);
    let s = s.as_slice();
    if contains_str(s, "\\windows\\") || crate::text::starts_with_str(s, "c:\\windows") {
        return false;
    }
    if contains_str(s, "\\program files\\") || contains_str(s, "\\program files (x86)\\") {
        return false;
    }
    if crate::text::ends_with_str(s, "\\temp") || crate::text::ends_with_str(s, "\\tmp")
        || crate::text::ends_with_str(s, "\\appdata\\local\\temp") {
        return false;
    }
    if contains_str(s, "\\appdata\\local\\temp\\") && !contains_str(s, "\\temp\\ccc") {
        let n = lower_name_exec(p);
        let n = n.as_slice();
        return contains_str(n, "wia") || contains_str(n, "epson") || contains_str(n, "scan")
            || contains_str(n, "twain") || contains_str(n, "brother");
    }
    true
}

/// Whether a harvested file is handed to the watcher: known scan destinations, the
/// FileWisely folders, the temp trees, or a scan-like name.
pub open spec fn ingest_harvest(path: Seq<char>) -> bool {
    let l = unicode_lower(path);
    if has_sub(l, "\\scanned documents"@) || has_sub(l, "\\epson"@) || has_sub(l, "\\brother"@)
        || has_sub(l, "\\fax"@) || has_sub(l, "filewisely\\scans"@) || has_sub(
        l,
        "filewisely\\incoming"@,
    ) || has_sub(l, "\\temp\\ccc"@) {
        true
    } else if has_sub(l, "\\appdata\\local\\temp\\"@) || has_sub(l, "\\temp\\"@) {
        true
    } else {
        scan_like_name(path)
    }
}

pub fn should_ingest_harvest(path: &str) -> (b: bool)
    ensures
        b == ingest_harvest(path@),
{
    let l = crate::text::lower_chars(path);
    let l = l.as_slice();
    if contains_str(l, "\\scanned documents") || contains_str(l, "\\epson") || contains_str(
        l,
        "\\brother",
    ) || contains_str(l, "\\fax") || contains_str(l, "filewisely\\scans") || contains_str(
        l,
        "filewisely\\incoming",
    ) || contains_str(l, "\\temp\\ccc") {
        return true;
    }
    if contains_str(l, "\\appdata\\local\\temp\\") || contains_str(l, "\\temp\\") {
        return true;
    }
    looks_like_scan_name(path)
}

/// The name a harvested temp file is copied under in the Scans folder
/// (`wia_{now_ms}.{ext}`, `bin` without an extension); `None` outside the temp trees and
/// for the CCC temp tree, which is watched directly.
pub open spec fn temp_copy_name(src: Seq<char>, now_ms: i64) -> Option<Seq<char>> {
    let l = unicode_lower(src);
    if !(has_sub(l, "\\appdata\\local\\temp\\"@) || has_sub(l, "\\temp\\"@)) || has_sub(
        l,
        "\\temp\\ccc"@,
    ) {
        None
    } else {
        Some(
            "wia_"@ + crate::text::decimal_int(now_ms as int) + "."@ + match extension(src) {
                Some(e) => e,
                None => "bin"@,
            },
        )
    }
}

pub fn temp_harvest_copy_name(src: &str, now_ms: i64) -> (r: Option<String>)
    ensures
        crate::ccc_package_sync::opt_view(r) == temp_copy_name(src@, now_ms),
{
    let l = crate::text::lower_chars(src);
    let l = l.as_slice();
    let is_temp = contains_str(l, "\\appdata\\local\\temp\\") || contains_str(l, "\\temp\\");
    if !is_temp || contains_str(l, "\\temp\\ccc") {
        return None;
    }
    let pv = crate::text::chars_of(src);
    let ext = match crate::paths::extension_exec(pv.as_slice()) {
        Some(e) => crate::text::string_of(e.as_slice()),
        None => String::from_str("bin"),
    };
    let mut m = String::from_str("wia_");
    let ts = crate::text::i64_to_string(now_ms);
    m.append(ts.as_str());
    m.append(".");
    m.append(ext.as_str());
    Some(m)
}

/// Whether some entry of `v` equals `s` ignoring ASCII case.
pub open spec fn has_ci(v: Seq<Seq<char>>, s: Seq<char>) -> bool {
    exists|i: int| 0 <= i < v.len() && eq_ignore_ascii_case(#[trigger] v[i], s)
}

/// Merging learned folders into the remembered list, in order: a folder that may not
/// be persisted, or that the list already holds (ignoring ASCII case, compared
/// trimmed), is passed over; once the list holds `MAX_DISCOVERED` entries the merge
/// stops. Returns the merged list and the folders added.
pub open spec fn merge_folders(merged: Seq<Seq<char>>, added: Seq<Seq<char>>, folders: Seq<Seq<char>>) -> (
    Seq<Seq<char>>,
    Seq<Seq<char>>,
)
    decreases folders.len(),
{
    if folders.len() == 0 {
        (merged, added)
    } else {
        let p = folders[0];
        if !persistable_folder(p) || has_ci(merged, trim(p)) {
            merge_folders(merged, added, folders.drop_first())
        } else if merged.len() >= MAX_DISCOVERED {
            (merged, added)
        } else {
            merge_folders(merged.push(p), added.push(p), folders.drop_first())
        }
    }
}

fn eq_ci_chars(a: &[char], b: &[char]) -> (r: bool)
    ensures
        r == eq_ignore_ascii_case(a@, b@),
{
    let x = crate::text::ascii_lower_exec(a);
    let y = crate::text::ascii_lower_exec(b);
    crate::text::chars_eq(x.as_slice(), y.as_slice())
}

fn contains_ci(v: &Vec<String>, s: &[char]) -> (r: bool)
    ensures
        r == has_ci(views(v@), s@),
{
    let mut i: usize = 0;
    while i < v.len()
        invariant
            i <= v.len(),
            forall|k: int| 0 <= k < i ==> !eq_ignore_ascii_case(#[trigger] views(v@)[k], s@),
        decreases v.len() - i,
    {
        let c = crate::text::chars_of(v[i].as_str());
        if eq_ci_chars(c.as_slice(), s) {
            assert(views(v@)[i as int] == c@);
            return true;
        }
        i = i + 1;
    }
    false
}

/// `merge_folders` on the remembered list `before` and the learned `folders`.
pub fn merge_discovered_dirs(before: &Vec<String>, folders: &Vec<String>) -> (r: (Vec<String>, Vec<String>))
    ensures
        (views(r.0@), views(r.1@)) == merge_folders(views(before@), Seq::empty(), views(folders@)),
{
    let mut merged = before.clone();
    let mut added: Vec<String> = Vec::new();
    let ghost goal = merge_folders(views(before@), Seq::empty(), views(folders@));
    proof {
        assert(views(merged@) =~= views(before@));
        assert(views(added@) =~= Seq::<Seq<char>>::empty());
        assert(views(folders@).skip(0) =~= views(folders@));
    }
    let mut i: usize = 0;
    while i < folders.len()
        invariant
            i <= folders.len(),
            goal == merge_folders(views(before@), Seq::empty(), views(folders@)),
            goal == merge_folders(views(merged@), views(added@), views(folders@).skip(i as int)),
        decreases folders.len() - i,
    {
        let p = &folders[i];
        let ghost rest = views(folders@).skip(i as int);
        assert(rest[0] == p@);
        assert(rest.drop_first() =~= views(folders@).skip(i + 1));
        if !safe_persistable_folder(p.as_str()) {
            i = i + 1;
            continue;
        }
        let t = crate::text::trim_chars(p.as_str());
        if contains_ci(&merged, t.as_slice()) {
            i = i + 1;
            continue;
        }
        if merged.len() >= MAX_DISCOVERED {
            return (merged, added);
        }
        let ghost mv = views(merged@);
        let ghost av = views(added@);
        merged.push(p.clone());
        added.push(p.clone());
        assert(views(merged@) =~= mv.push(p@));
        assert(views(added@) =~= av.push(p@));
        i = i + 1;
    }
    assert(views(folders@).skip(folders.len() as int) =~= Seq::<Seq<char>>::empty());
    (merged, added)
}

proof fn lemma_merge_shape(merged: Seq<Seq<char>>, added: Seq<Seq<char>>, folders: Seq<Seq<char>>)
    ensures
        ({
            let r = merge_folders(merged, added, folders);
            &&& r.1.len() >= added.len()
            &&& r.1.take(added.len() as int) == added
            &&& r.0 == merged + r.1.skip(added.len() as int)
            &&& merged.len() <= MAX_DISCOVERED ==> r.0.len() <= MAX_DISCOVERED
        }),
    decreases folders.len(),
{
    if folders.len() == 0 {
        assert(added.take(added.len() as int) =~= added);
        assert(merged + added.skip(added.len() as int) =~= merged);
    } else {
        let p = folders[0];
        if !persistable_folder(p) || has_ci(merged, trim(p)) {
            lemma_merge_shape(merged, added, folders.drop_first());
        } else if merged.len() >= MAX_DISCOVERED {
            assert(added.take(added.len() as int) =~= added);
            assert(merged + added.skip(added.len() as int) =~= merged);
        } else {
            lemma_merge_shape(merged.push(p), added.push(p), folders.drop_first());
            let r = merge_folders(merged, added, folders);
            assert(r.1.take(added.len() as int) =~= r.1.take(added.len() as int + 1).take(added.len() as int));
            assert(added.push(p).take(added.len() as int) =~= added);
            assert(r.1.skip(added.len() as int) =~= seq![p] + r.1.skip(added.len() as int + 1)) by {
                assert(r.1.take(added.len() as int + 1)[added.len() as int] == p);
            }
            assert(r.0 =~= merged + r.1.skip(added.len() as int));
        }
    }
}

/// Merging learned folders only appends: the remembered list comes back unchanged at the
/// front with exactly the added folders after it, and a list that held at most
/// `MAX_DISCOVERED` folders still does.
pub proof fn law_merge_appends_within_cap(before: Seq<Seq<char>>, folders: Seq<Seq<char>>)
    ensures
        ({
            let (merged, added) = merge_folders(before, Seq::empty(), folders);
            &&& merged == before + added
            &&& before.len() <= MAX_DISCOVERED ==> merged.len() <= MAX_DISCOVERED
        }),
{
    lemma_merge_shape(before, Seq::empty(), folders);
    let r = merge_folders(before, Seq::empty(), folders);
    assert(r.1.skip(0) =~= r.1);
}

/// The report of one discovery run.
pub struct SourceAutodiscoverySummary {
    pub ok: bool,
    pub error: Option<String>,
    pub added: Vec<String>,
    pub candidates: Vec<String>,
    pub devices: Vec<String>,
    pub no_new_dirs: bool,
    pub trigger: String,
}

/// The report where discovery cannot run (any platform but Windows).
pub fn autodiscovery_unavailable(trigger: &str) -> (r: SourceAutodiscoverySummary)
    ensures
        !r.ok,
        crate::ccc_package_sync::opt_view(r.error) == Some("Source autodiscovery is Windows-only"@),
        r.added@.len() == 0 && r.candidates@.len() == 0 && r.devices@.len() == 0,
        r.no_new_dirs,
        r.trigger@ == trigger@,
{
    SourceAutodiscoverySummary {
        ok: false,
        error: Some(String::from_str("Source autodiscovery is Windows-only")),
        added: Vec::new(),
        candidates: Vec::new(),
        devices: Vec::new(),
        no_new_dirs: true,
        trigger: String::from_str(trigger),
    }
}

/// The report of a completed run: the candidate folders distinct and sorted, at most
/// `MAX_CANDIDATES` of them; `no_new_dirs` when nothing was added.
pub fn autodiscovery_complete(added: Vec<String>, candidates: &Vec<String>, devices: Vec<String>, trigger: &str) -> (r:
    SourceAutodiscoverySummary)
    ensures
        r.ok,
        r.error is None,
        r.added@ == added@,
        r.devices@ == devices@,
        r.no_new_dirs == (added@.len() == 0),
        r.trigger@ == trigger@,
        r.candidates@.len() <= MAX_CANDIDATES,
        crate::json::strictly_sorted(views(r.candidates@)),
        forall|s: Seq<char>| #[trigger] views(r.candidates@).contains(s) ==> views(candidates@).contains(s),
        views(r.candidates@).len() < MAX_CANDIDATES ==> forall|s: Seq<char>| #[trigger] views(candidates@).contains(s)
            ==> views(r.candidates@).contains(s),
{
    let sorted = crate::json::sorted_unique(candidates);
    let mut kept: Vec<String> = Vec::new();
    let mut i: usize = 0;
    while i < sorted.len() && i < MAX_CANDIDATES
        invariant
            i <= sorted.len(),
            i <= MAX_CANDIDATES,
            views(kept@) == views(sorted@).take(i as int),
        decreases sorted.len() - i,
    {
        kept.push(sorted[i].clone());
        assert(views(sorted@).take(i + 1) =~= views(sorted@).take(i as int).push(sorted@[i as int]@));
        assert(views(kept@) =~= views(sorted@).take(i + 1));
        i = i + 1;
    }
    let ghost sv = views(sorted@);
    let ghost kv = views(kept@);
    assert forall|a: int, b: int| 0 <= a < b < kv.len() implies crate::json::key_lt(#[trigger] kv[a], #[trigger] kv[b]) by {
        assert(kv[a] == sv[a] && kv[b] == sv[b]);
    }
    assert forall|s: Seq<char>| #[trigger] kv.contains(s) implies views(candidates@).contains(s) by {
        let k = choose|k: int| 0 <= k < kv.len() && kv[k] == s;
        assert(sv[k] == s);
        assert(sv.contains(s));
    }
    if kept.len() < MAX_CANDIDATES {
        assert(kv =~= sv);
    }
    let none = added.len() == 0;
    SourceAutodiscoverySummary {
        ok: true,
        error: None,
        added,
        candidates: kept,
        devices,
        no_new_dirs: none,
        trigger: String::from_str(trigger),
    }
}


/// A file modified at `mtime_ms` is recent at `now_ms` when it is not in the future and
/// at most `max_age_ms` old.
pub fn is_recent_mtime(mtime_ms: i64, now_ms: i64, max_age_ms: u64) -> (b: bool)
    ensures
        b == (mtime_ms <= now_ms && now_ms - mtime_ms <= max_age_ms),
{
    if mtime_ms > now_ms {
        return false;
    }
    let age = (now_ms as i128) - (mtime_ms as i128);
    age <= max_age_ms as i128
}

} // verus!

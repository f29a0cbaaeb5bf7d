//! Picking exported PDFs out of the watched folders: which directory entries count as
//! recent PDFs, the newest one, all of them in (modification time, path) order, the
//! `fw_*.pdf` files waiting in FileWisely Incoming, and the response the UI gets for a
//! PDF read from disk. Listing folders, reading metadata and bytes are the caller's.
use vstd::prelude::*;
use crate::json::{key_less, key_lt, lemma_key_lt_irreflexive, lemma_key_lt_total, lemma_key_lt_transitive};
use crate::paths::extension;
use crate::text::{decimal, eq_ignore_ascii_case, unicode_lower};
use base64::Engine;

verus! {

broadcast use vstd::seq_lib::group_to_multiset_ensures;

/// A PDF offered to the upload pipeline.
pub struct PdfMeta {
    pub file_path: String,
    pub modified_unix_ms: i64,
    pub file_size: u64,
}

impl View for PdfMeta {
    type V = (Seq<char>, i64, u64);

    open spec fn view(&self) -> (Seq<char>, i64, u64) {
        (self.file_path@, self.modified_unix_ms, self.file_size)
    }
}

/// A directory entry as the caller saw it: its path, its modification time and size when
/// they could be read, and whether it is a regular file.
pub struct PdfDirEntry {
    pub path: String,
    pub modified_unix_ms: Option<i64>,
    pub size: Option<u64>,
    pub is_file: bool,
}

impl View for PdfDirEntry {
    type V = (Seq<char>, Option<i64>, Option<u64>, bool);

    open spec fn view(&self) -> (Seq<char>, Option<i64>, Option<u64>, bool) {
        (self.path@, self.modified_unix_ms, self.size, self.is_file)
    }
}

pub open spec fn metas_view(v: Seq<PdfMeta>) -> Seq<(Seq<char>, i64, u64)> {
    v.map_values(|m: PdfMeta| m@)
}

pub open spec fn entries_view(v: Seq<PdfDirEntry>) -> Seq<(Seq<char>, Option<i64>, Option<u64>, bool)> {
    v.map_values(|e: PdfDirEntry| e@)
}

// ---------------------------------------------------------------------------
// Order
// ---------------------------------------------------------------------------

/// `a` sorts before `b`: older first, then by path (code-point order).
pub open spec fn meta_before(a: (Seq<char>, i64, u64), b: (Seq<char>, i64, u64)) -> bool {
    a.1 < b.1 || (a.1 == b.1 && key_lt(a.0, b.0))
}

/// In (modification time, path) order.
pub open spec fn metas_sorted(v: Seq<(Seq<char>, i64, u64)>) -> bool {
    forall|i: int, j: int| 0 <= i < j < v.len() ==> !meta_before(#[trigger] v[j], #[trigger] v[i])
}

proof fn lemma_before_transitive(
    a: (Seq<char>, i64, u64),
    b: (Seq<char>, i64, u64),
    c: (Seq<char>, i64, u64),
)
    requires
        meta_before(a, b),
        meta_before(b, c),
    ensures
        meta_before(a, c),
{
    if a.1 == b.1 && b.1 == c.1 {
        lemma_key_lt_transitive(a.0, b.0, c.0);
    }
}

proof fn lemma_before_asymmetric(a: (Seq<char>, i64, u64), b: (Seq<char>, i64, u64))
    requires
        meta_before(a, b),
    ensures
        !meta_before(b, a),
{
    if meta_before(b, a) {
        lemma_before_transitive(a, b, a);
        lemma_key_lt_irreflexive(a.0);
    }
}

fn before_exec(a: &PdfMeta, b: &PdfMeta) -> (r: bool)
    ensures
        r == meta_before(a@, b@),
{
    if a.modified_unix_ms < b.modified_unix_ms {
        return true;
    }
    if a.modified_unix_ms > b.modified_unix_ms {
        return false;
    }
    let x = crate::text::chars_of(a.file_path.as_str());
    let y = crate::text::chars_of(b.file_path.as_str());
    key_less(x.as_slice(), y.as_slice())
}

fn copy_meta(m: &PdfMeta) -> (r: PdfMeta)
    ensures
        r@ == m@,
{
    PdfMeta { file_path: m.file_path.clone(), modified_unix_ms: m.modified_unix_ms, file_size: m.file_size }
}

/// Inserting `e` where the first element after it stands keeps the order.
proof fn lemma_insert_sorted(o: Seq<(Seq<char>, i64, u64)>, e: (Seq<char>, i64, u64), p: int)
    requires
        metas_sorted(o),
        0 <= p <= o.len(),
        forall|k: int| 0 <= k < p ==> !meta_before(e, #[trigger] o[k]),
        p < o.len() ==> meta_before(e, o[p]),
    ensures
        metas_sorted(o.insert(p, e)),
{
    let n = o.insert(p, e);
    assert forall|a: int, b: int| 0 <= a < b < n.len() implies !meta_before(
        #[trigger] n[b],
        #[trigger] n[a],
    ) by {
        if b < p {
            assert(n[a] == o[a] && n[b] == o[b]);
        } else if b == p {
            assert(n[a] == o[a] && n[b] == e);
        } else if a < p {
            assert(n[a] == o[a] && n[b] == o[b - 1]);
        } else if a == p {
            assert(n[a] == e && n[b] == o[b - 1]);
            if b - 1 > p {
                assert(!meta_before(o[b - 1], o[p]));
                if meta_before(o[b - 1], e) {
                    lemma_before_transitive(o[b - 1], e, o[p]);
                }
            } else {
                lemma_before_asymmetric(e, o[p]);
            }
        } else {
            assert(n[a] == o[a - 1] && n[b] == o[b - 1]);
        }
    }
}

/// The metas in (modification time, path) order.
pub fn sort_pdf_metas(v: &Vec<PdfMeta>) -> (r: Vec<PdfMeta>)
    ensures
        metas_sorted(metas_view(r@)),
        metas_view(r@).to_multiset() == metas_view(v@).to_multiset(),
{
    let ghost vv = metas_view(v@);
    let mut out: Vec<PdfMeta> = Vec::new();
    let mut i: usize = 0;
    while i < v.len()
        invariant
            i <= v.len(),
            vv == metas_view(v@),
            metas_sorted(metas_view(out@)),
            metas_view(out@).to_multiset() == vv.take(i as int).to_multiset(),
        decreases v.len() - i,
    {
        let e = copy_meta(&v[i]);
        let mut p: usize = 0;
        while p < out.len() && !before_exec(&e, &out[p])
            invariant
                p <= out.len(),
                forall|k: int| 0 <= k < p ==> !meta_before(e@, #[trigger] metas_view(out@)[k]),
            decreases out.len() - p,
        {
            p = p + 1;
        }
        let ghost o = metas_view(out@);
        proof {
            lemma_insert_sorted(o, e@, p as int);
        }
        let ghost ev = e@;
        out.insert(p, e);
        assert(metas_view(out@) =~= o.insert(p as int, ev));
        assert(vv.take(i + 1) =~= vv.take(i as int).push(vv[i as int]));
        i = i + 1;
    }
    assert(vv.take(v.len() as int) =~= vv);
    out
}

// ---------------------------------------------------------------------------
// Which entries count
// ---------------------------------------------------------------------------

/// The path's extension is `pdf` in any ASCII case.
pub open spec fn pdf_path(path: Seq<char>) -> bool {
    match extension(path) {
        Some(e) => eq_ignore_ascii_case(e, "pdf"@),
        None => false,
    }
}

pub fn is_pdf_path(path: &str) -> (b: bool)
    ensures
        b == pdf_path(path@),
{
    let v = crate::text::chars_of(path);
    match crate::paths::extension_exec(v.as_slice()) {
        Some(e) => crate::text::eq_ignore_ascii_case_str(e.as_slice(), "pdf"),
        None => false,
    }
}

/// A recent PDF: a `.pdf` entry modified at or after `since` and larger than `min_bytes`.
pub open spec fn recent_meta(
    e: (Seq<char>, Option<i64>, Option<u64>, bool),
    since: i64,
    min_bytes: u64,
) -> Option<(Seq<char>, i64, u64)> {
    if pdf_path(e.0) && e.1 is Some && e.1->0 >= since && e.2 is Some && e.2->0 > min_bytes {
        Some((e.0, e.1->0, e.2->0))
    } else {
        None
    }
}

/// The recent PDFs among the entries, in the order seen.
pub open spec fn recent_metas(
    v: Seq<(Seq<char>, Option<i64>, Option<u64>, bool)>,
    since: i64,
    min_bytes: u64,
) -> Seq<(Seq<char>, i64, u64)>
    decreases v.len(),
{
    if v.len() == 0 {
        Seq::empty()
    } else {
        let prev = recent_metas(v.drop_last(), since, min_bytes);
        match recent_meta(v.last(), since, min_bytes) {
            Some(m) => prev.push(m),
            None => prev,
        }
    }
}

/// The newest recent PDF; of equally new ones, the first seen.
pub open spec fn newest_meta(
    v: Seq<(Seq<char>, Option<i64>, Option<u64>, bool)>,
    since: i64,
    min_bytes: u64,
) -> Option<(Seq<char>, i64, u64)>
    decreases v.len(),
{
    if v.len() == 0 {
        None
    } else {
        let prev = newest_meta(v.drop_last(), since, min_bytes);
        match recent_meta(v.last(), since, min_bytes) {
            Some(m) => match prev {
                Some(b) => if m.1 <= b.1 {
                    prev
                } else {
                    Some(m)
                },
                None => Some(m),
            },
            None => prev,
        }
    }
}

fn meta_of_entry(e: &PdfDirEntry, since: i64, min_bytes: u64) -> (r: Option<PdfMeta>)
    ensures
        match r {
            Some(m) => recent_meta(e@, since, min_bytes) == Some(m@),
            None => recent_meta(e@, since, min_bytes) is None,
        },
{
    if !is_pdf_path(e.path.as_str()) {
        return None;
    }
    let ts = match e.modified_unix_ms {
        Some(v) => {
            if v >= since {
                v
            } else {
                return None;
            }
        },
        None => {
            return None;
        },
    };
    let size = match e.size {
        Some(n) => {
            if n > min_bytes {
                n
            } else {
                return None;
            }
        },
        None => {
            return None;
        },
    };
    Some(PdfMeta { file_path: e.path.clone(), modified_unix_ms: ts, file_size: size })
}

/// The newest PDF modified at or after `since_unix_ms` and larger than `min_bytes`
/// among the entries of the watched folders (in the order they were listed).
pub fn newest_pdf_meta_since(entries: &Vec<PdfDirEntry>, since_unix_ms: i64, min_bytes: u64) -> (r:
    Option<PdfMeta>)
    ensures
        match r {
            Some(m) => newest_meta(entries_view(entries@), since_unix_ms, min_bytes) == Some(m@),
            None => newest_meta(entries_view(entries@), since_unix_ms, min_bytes) is None,
        },
{
    let ghost ev = entries_view(entries@);
    let mut best: Option<PdfMeta> = None;
    let mut i: usize = 0;
    while i < entries.len()
        invariant
            i <= entries.len(),
            ev == entries_view(entries@),
            match best {
                Some(m) => newest_meta(ev.take(i as int), since_unix_ms, min_bytes) == Some(m@),
                None => newest_meta(ev.take(i as int), since_unix_ms, min_bytes) is None,
            },
        decreases entries.len() - i,
    {
        assert(ev.take(i + 1).drop_last() =~= ev.take(i as int));
        assert(ev.take(i + 1).last() == entries@[i as int]@);
        match meta_of_entry(&entries[i], since_unix_ms, min_bytes) {
            Some(m) => {
                let replace = match &best {
                    Some(b) => m.modified_unix_ms > b.modified_unix_ms,
                    None => true,
                };
                if replace {
                    best = Some(m);
                }
            },
            None => {},
        }
        i = i + 1;
    }
    assert(ev.take(entries.len() as int) =~= ev);
    best
}

/// The path of the newest recent PDF (see `newest_pdf_meta_since`).
pub fn newest_pdf_since(entries: &Vec<PdfDirEntry>, start_unix_ms: i64, min_bytes: u64) -> (r: Option<String>)
    ensures
        match r {
            Some(p) => newest_meta(entries_view(entries@), start_unix_ms, min_bytes) matches Some(
                m,
            ) && m.0 == p@,
            None => newest_meta(entries_view(entries@), start_unix_ms, min_bytes) is None,
        },
{
    match newest_pdf_meta_since(entries, start_unix_ms, min_bytes) {
        Some(m) => Some(m.file_path),
        None => None,
    }
}

/// The newest recent PDF is one of the recent PDFs and none of them is newer; there is
/// one exactly when there are recent PDFs at all.
pub proof fn law_newest_is_latest_recent(
    v: Seq<(Seq<char>, Option<i64>, Option<u64>, bool)>,
    since: i64,
    min_bytes: u64,
)
    ensures
        newest_meta(v, since, min_bytes) is None <==> recent_metas(v, since, min_bytes).len() == 0,
        newest_meta(v, since, min_bytes) matches Some(m) ==> {
            &&& recent_metas(v, since, min_bytes).contains(m)
            &&& forall|k: int|
                0 <= k < recent_metas(v, since, min_bytes).len() ==> (#[trigger] recent_metas(
                    v,
                    since,
                    min_bytes,
                )[k]).1 <= m.1
        },
    decreases v.len(),
{
    if v.len() > 0 {
        law_newest_is_latest_recent(v.drop_last(), since, min_bytes);
        let prev = recent_metas(v.drop_last(), since, min_bytes);
        let cur = recent_metas(v, since, min_bytes);
        match recent_meta(v.last(), since, min_bytes) {
            Some(x) => {
                assert(cur == prev.push(x));
                assert(cur[cur.len() - 1] == x);
                match newest_meta(v.drop_last(), since, min_bytes) {
                    Some(b) => {
                        let ib = choose|i: int| 0 <= i < prev.len() && prev[i] == b;
                        assert(cur[ib] == b);
                        let nm = newest_meta(v, since, min_bytes)->0;
                        assert forall|k: int| 0 <= k < cur.len() implies (#[trigger] cur[k]).1
                            <= nm.1 by {
                            if k < prev.len() {
                                assert(cur[k] == prev[k]);
                            }
                        }
                    },
                    None => {
                        assert(prev.len() == 0);
                    },
                }
            },
            None => {
                assert(cur == prev);
            },
        }
    }
}

/// Every PDF modified at or after `since_unix_ms` and larger than `min_bytes`, in
/// (modification time, path) order: the batch of a multi-document print.
pub fn collect_pdf_metas_since(entries: &Vec<PdfDirEntry>, since_unix_ms: i64, min_bytes: u64) -> (r:
    Vec<PdfMeta>)
    ensures
        metas_sorted(metas_view(r@)),
        metas_view(r@).to_multiset() == recent_metas(
            entries_view(entries@),
            since_unix_ms,
            min_bytes,
        ).to_multiset(),
{
    let ghost ev = entries_view(entries@);
    let mut found: Vec<PdfMeta> = Vec::new();
    let mut i: usize = 0;
    while i < entries.len()
        invariant
            i <= entries.len(),
            ev == entries_view(entries@),
            metas_view(found@) == recent_metas(ev.take(i as int), since_unix_ms, min_bytes),
        decreases entries.len() - i,
    {
        assert(ev.take(i + 1).drop_last() =~= ev.take(i as int));
        assert(ev.take(i + 1).last() == entries@[i as int]@);
        match meta_of_entry(&entries[i], since_unix_ms, min_bytes) {
            Some(m) => {
                let ghost prev = metas_view(found@);
                let ghost mv = m@;
                found.push(m);
                assert(metas_view(found@) =~= prev.push(mv));
            },
            None => {},
        }
        i = i + 1;
    }
    assert(ev.take(entries.len() as int) =~= ev);
    sort_pdf_metas(&found)
}

/// A file FileWisely named itself in Incoming: `fw_….pdf`, a regular file with a known
/// modification time, larger than `min_bytes`.
pub open spec fn fw_meta(e: (Seq<char>, Option<i64>, Option<u64>, bool), min_bytes: u64) -> Option<
    (Seq<char>, i64, u64),
> {
    if crate::services::incoming_emit::fw_incoming_pdf(e.0) && e.3 && e.1 is Some && e.2 is Some
        && e.2->0 > min_bytes {
        Some((e.0, e.1->0, e.2->0))
    } else {
        None
    }
}

pub open spec fn fw_metas(v: Seq<(Seq<char>, Option<i64>, Option<u64>, bool)>, min_bytes: u64) -> Seq<
    (Seq<char>, i64, u64),
>
    decreases v.len(),
{
    if v.len() == 0 {
        Seq::empty()
    } else {
        let prev = fw_metas(v.drop_last(), min_bytes);
        match fw_meta(v.last(), min_bytes) {
            Some(m) => prev.push(m),
            None => prev,
        }
    }
}

/// Every `fw_*.pdf` in FileWisely Incoming (given its entries), in (modification time,
/// path) order.
pub fn collect_fw_pdf_metas_in_filewisely_incoming(entries: &Vec<PdfDirEntry>, min_bytes: u64) -> (r:
    Vec<PdfMeta>)
    ensures
        metas_sorted(metas_view(r@)),
        metas_view(r@).to_multiset() == fw_metas(entries_view(entries@), min_bytes).to_multiset(),
{
    let ghost ev = entries_view(entries@);
    let mut found: Vec<PdfMeta> = Vec::new();
    let mut i: usize = 0;
    while i < entries.len()
        invariant
            i <= entries.len(),
            ev == entries_view(entries@),
            metas_view(found@) == fw_metas(ev.take(i as int), min_bytes),
        decreases entries.len() - i,
    {
        assert(ev.take(i + 1).drop_last() =~= ev.take(i as int));
        assert(ev.take(i + 1).last() == entries@[i as int]@);
        let e = &entries[i];
        if crate::services::incoming_emit::is_fw_incoming_pdf_path(e.path.as_str()) && e.is_file {
            match (e.modified_unix_ms, e.size) {
                (Some(ts), Some(n)) => {
                    if n > min_bytes {
                        let m = PdfMeta { file_path: e.path.clone(), modified_unix_ms: ts, file_size: n };
                        let ghost prev = metas_view(found@);
                        let ghost mv = m@;
                        found.push(m);
                        assert(metas_view(found@) =~= prev.push(mv));
                    }
                },
                _ => {},
            }
        }
        i = i + 1;
    }
    assert(ev.take(entries.len() as int) =~= ev);
    sort_pdf_metas(&found)
}

// ---------------------------------------------------------------------------
// Reading a PDF for the UI
// ---------------------------------------------------------------------------

/// What the UI gets for a captured PDF.
pub struct PdfCaptureResponse {
    pub success: bool,
    /// The file's bytes, base64-encoded.
    pub image_base64: String,
    pub file_path: String,
    pub message: String,
    pub captured_at_unix_ms: i64,
}

/// The character for a 6-bit value in the standard base64 alphabet.
pub open spec fn b64_digit(v: int) -> char {
    if v < 26 {
        (65 + v) as char
    } else if v < 52 {
        (97 + v - 26) as char
    } else if v < 62 {
        (48 + v - 52) as char
    } else if v == 62 {
        '+'
    } else {
        '/'
    }
}

/// Standard base64 (RFC 4648, alphabet `A–Z a–z 0–9 + /`) with `=` padding.
pub open spec fn base64_standard(s: Seq<u8>) -> Seq<char>
    decreases s.len(),
{
    if s.len() == 0 {
        Seq::empty()
    } else {
        let a = s[0] as int;
        let b = if s.len() > 1 {
            s[1] as int
        } else {
            0
        };
        let c = if s.len() > 2 {
            s[2] as int
        } else {
            0
        };
        let d0 = b64_digit(a / 4);
        let d1 = b64_digit((a % 4) * 16 + b / 16);
        let d2 = b64_digit((b % 16) * 4 + c / 64);
        let d3 = b64_digit(c % 64);
        if s.len() == 1 {
            seq![d0, d1, '=', '=']
        } else if s.len() == 2 {
            seq![d0, d1, d2, '=']
        } else {
            seq![d0, d1, d2, d3] + base64_standard(s.subrange(3, s.len() as int))
        }
    }
}

/// The encoded length fits in memory (the engine panics otherwise).
pub open spec fn encodable(n: nat) -> bool {
    n / 3 * 4 + 4 <= usize::MAX
}

/// Calls `base64::engine::general_purpose::STANDARD.encode`. Claimed: the standard
/// alphabet with `=` padding, as RFC 4648 gives it.
#[verifier::external_body]
fn base64_encode(bytes: &[u8]) -> (r: String)
    requires
        encodable(bytes@.len()),
    ensures
        r@ == base64_standard(bytes@),
{
    base64::engine::general_purpose::STANDARD.encode(bytes)
}

/// The checks before a PDF is read for the UI: it exists and its extension is `pdf`.
pub fn read_pdf_precheck(path: &str, exists: bool) -> (r: Result<(), String>)
    ensures
        !exists ==> (r matches Err(e) && e@ == "PDF file not found"@),
        exists && !pdf_path(path@) ==> (r matches Err(e) && e@ == "File is not a PDF"@),
        exists && pdf_path(path@) ==> r is Ok,
{
    if !exists {
        return Err(String::from_str("PDF file not found"));
    }
    if !is_pdf_path(path) {
        return Err(String::from_str("File is not a PDF"));
    }
    Ok(())
}

/// The response for the PDF at `path` with the given bytes, read at `captured_at_unix_ms`.
pub fn pdf_capture_response(path: &str, bytes: &[u8], message: &str, captured_at_unix_ms: i64) -> (r:
    PdfCaptureResponse)
    requires
        encodable(bytes@.len()),
    ensures
        r.success,
        r.image_base64@ == base64_standard(bytes@),
        r.file_path@ == path@,
        r.message@ == message@,
        r.captured_at_unix_ms == captured_at_unix_ms,
{
    PdfCaptureResponse {
        success: true,
        image_base64: base64_encode(bytes),
        file_path: String::from_str(path),
        message: String::from_str(message),
        captured_at_unix_ms,
    }
}

/// A PDF read on request of the background watcher.
pub fn read_pdf_file(path: &str, bytes: &[u8], captured_at_unix_ms: i64) -> (r: PdfCaptureResponse)
    requires
        encodable(bytes@.len()),
    ensures
        r.success,
        r.image_base64@ == base64_standard(bytes@),
        r.file_path@ == path@,
        r.message@ == "PDF captured from background watcher."@,
        r.captured_at_unix_ms == captured_at_unix_ms,
{
    pdf_capture_response(path, bytes, "PDF captured from background watcher.", captured_at_unix_ms)
}

// ---------------------------------------------------------------------------
// Waiting for a recent export
// ---------------------------------------------------------------------------

/// The wait in seconds: 30 by default, kept within 10 to 60.
pub fn recent_pdf_timeout_secs(timeout_secs: Option<u64>) -> (r: u64)
    ensures
        r == ({
            let t = match timeout_secs {
                Some(t) => t,
                None => 30,
            };
            if t < 10 {
                10
            } else if t > 60 {
                60
            } else {
                t
            }
        }),
{
    let t = match timeout_secs {
        Some(t) => t,
        None => 30,
    };
    if t < 10 {
        10
    } else if t > 60 {
        60
    } else {
        t
    }
}

/// One step of the wait for a recent export.
pub enum RecentPdfStep {
    /// This PDF was found.
    Found(String),
    /// The deadline passed: the error to return.
    GiveUp(String),
    /// Look again after this many milliseconds.
    Sleep(u64),
}

/// The wait's step at `now_ms`, given the newest recent PDF found (if any), the deadline
/// (`start + timeout * 1000`) and the timeout in seconds.
pub fn recent_pdf_step(found: Option<String>, now_ms: i64, start_ms: i64, timeout_secs: u64) -> (r:
    RecentPdfStep)
    requires
        timeout_secs <= 60,
        start_ms <= i64::MAX - 60_000,
    ensures
        match found {
            Some(p) => r matches RecentPdfStep::Found(q) && q@ == p@,
            None => if now_ms >= start_ms + timeout_secs * 1000 {
                r matches RecentPdfStep::GiveUp(e) && e@ == "No PDF found within "@ + decimal(
                    timeout_secs as nat,
                ) + "s"@
            } else {
                r matches RecentPdfStep::Sleep(ms) && ms == 500
            },
        },
{
    match found {
        Some(p) => RecentPdfStep::Found(p),
        None => {
            let deadline = start_ms + (timeout_secs as i64) * 1000;
            if now_ms >= deadline {
                let mut e = String::from_str("No PDF found within ");
                let d = crate::text::u64_to_string(timeout_secs);
                e.append(d.as_str());
                e.append("s");
                RecentPdfStep::GiveUp(e)
            } else {
                RecentPdfStep::Sleep(500)
            }
        },
    }
}

/// A PDF found while waiting for a recent export.
pub fn recent_pdf_response(path: &str, bytes: &[u8], captured_at_unix_ms: i64) -> (r: PdfCaptureResponse)
    requires
        encodable(bytes@.len()),
    ensures
        r.success,
        r.image_base64@ == base64_standard(bytes@),
        r.file_path@ == path@,
        r.message@ == "PDF captured from recent export."@,
        r.captured_at_unix_ms == captured_at_unix_ms,
{
    pdf_capture_response(path, bytes, "PDF captured from recent export.", captured_at_unix_ms)
}

/// The message of a screen capture.
pub fn capture_message(source_app: &str, window_title: &str, rule_id: &str) -> (r: String)
    ensures
        r@ == "Capture completed.\nApp: "@ + source_app@ + "\nTitle: "@ + window_title@ + "\nRule: "@
            + rule_id@,
{
    let mut m = String::from_str("Capture completed.\nApp: ");
    m.append(source_app);
    m.append("\nTitle: ");
    m.append(window_title);
    m.append("\nRule: ");
    m.append(rule_id);
    m
}

// ---------------------------------------------------------------------------
// Moving an uploaded `fw_*.pdf` out of Incoming
// ---------------------------------------------------------------------------

/// Where `fw_*.pdf` goes after its upload, or why it cannot be moved: it must be a file,
/// named `fw_….pdf`, under Incoming, and the outcome `processed` or `failed`. The result
/// is the destination folder and the file's name.
pub open spec fn outcome_target(source: Seq<char>, is_file: bool, under_incoming: bool, outcome: Seq<char>) -> Result<
    (Seq<char>, Seq<char>),
    Seq<char>,
> {
    if !is_file {
        Err("source not found or not a file: "@ + source)
    } else {
        match crate::paths::file_name(source) {
            None => Err("invalid file name"@),
            Some(name) => if !(crate::text::starts_with(unicode_lower(name), "fw_"@)
                && crate::text::ends_with(unicode_lower(name), ".pdf"@)) {
                Err("uce_move_fw_pdf_outcome: only fw_*.pdf under Incoming"@)
            } else if !under_incoming {
                Err("path must be under C:\\FileWisely\\Incoming: "@ + source)
            } else if outcome == "processed"@ {
                Ok(("C:\\FileWisely\\Processed"@, name))
            } else if outcome == "failed"@ {
                Ok(("C:\\FileWisely\\Failed"@, name))
            } else {
                Err("outcome must be processed or failed, got "@ + outcome)
            },
        }
    }
}

pub fn fw_pdf_outcome_target(source_path: &str, is_file: bool, under_incoming: bool, outcome: &str) -> (r:
    Result<(String, String), String>)
    ensures
        match r {
            Ok((d, n)) => outcome_target(source_path@, is_file, under_incoming, outcome@) == Ok::<
                (Seq<char>, Seq<char>),
                Seq<char>,
            >((d@, n@)),
            Err(e) => outcome_target(source_path@, is_file, under_incoming, outcome@) == Err::<
                (Seq<char>, Seq<char>),
                Seq<char>,
            >(e@),
        },
{
    if !is_file {
        let mut e = String::from_str("source not found or not a file: ");
        e.append(source_path);
        return Err(e);
    }
    let sv = crate::text::chars_of(source_path);
    let name = match crate::paths::file_name_exec(sv.as_slice()) {
        Some(n) => crate::text::string_of(n.as_slice()),
        None => {
            return Err(String::from_str("invalid file name"));
        },
    };
    let lower = crate::text::lower_chars(name.as_str());
    if !(crate::text::starts_with_str(lower.as_slice(), "fw_") && crate::text::ends_with_str(
        lower.as_slice(),
        ".pdf",
    )) {
        return Err(String::from_str("uce_move_fw_pdf_outcome: only fw_*.pdf under Incoming"));
    }
    if !under_incoming {
        let mut e = String::from_str("path must be under ");
        e.append(crate::config::print_config::FW_OUTPUT_DIR);
        e.append(": ");
        e.append(source_path);
        proof {
            reveal_strlit("path must be under ");
            reveal_strlit("C:\\FileWisely\\Incoming");
            reveal_strlit(": ");
            reveal_strlit("path must be under C:\\FileWisely\\Incoming: ");
        }
        assert(e@ == "path must be under C:\\FileWisely\\Incoming: "@ + source_path@);
        return Err(e);
    }
    let ov = crate::text::chars_of(outcome);
    if crate::text::eq_str(ov.as_slice(), "processed") {
        Ok((crate::config::print_config::filewisely_processed_dir(), name))
    } else if crate::text::eq_str(ov.as_slice(), "failed") {
        Ok((crate::config::print_config::filewisely_failed_dir(), name))
    } else {
        let mut e = String::from_str("outcome must be processed or failed, got ");
        e.append(outcome);
        Err(e)
    }
}

/// The destination in `dest_dir`: the file's own name, or `{stem}_{now_ms}.pdf` when that
/// name is taken (`fw` without a stem).
pub fn fw_pdf_outcome_dest(source_path: &str, dest_dir: &str, name_taken: bool, now_ms: u128) -> (r: String)
    ensures
        !name_taken ==> r@ == crate::paths::path_join(
            dest_dir@,
            match crate::paths::file_name(source_path@) {
                Some(n) => n,
                None => Seq::empty(),
            },
        ),
        name_taken ==> r@ == crate::paths::path_join(
            dest_dir@,
            match crate::paths::file_stem(source_path@) {
                Some(s) => s,
                None => "fw"@,
            } + "_"@ + decimal(now_ms as nat) + ".pdf"@,
        ),
{
    let sv = crate::text::chars_of(source_path);
    let dv = crate::text::chars_of(dest_dir);
    if !name_taken {
        let name = match crate::paths::file_name_exec(sv.as_slice()) {
            Some(n) => n,
            None => Vec::new(),
        };
        let j = crate::paths::join_chars(dv.as_slice(), name.as_slice());
        return crate::text::string_of(j.as_slice());
    }
    let stem = match crate::paths::file_stem_exec(sv.as_slice()) {
        Some(st) => crate::text::string_of(st.as_slice()),
        None => String::from_str("fw"),
    };
    let mut n = stem;
    n.append("_");
    let d = crate::text::u128_to_string(now_ms);
    n.append(d.as_str());
    n.append(".pdf");
    let nv = crate::text::chars_of(n.as_str());
    let j = crate::paths::join_chars(dv.as_slice(), nv.as_slice());
    crate::text::string_of(j.as_slice())
}

/// For a failed upload: the sidecar `{stem}.error.json` beside the moved PDF (`unknown`
/// without a stem) and its body, `{"error":"unknown"}` when none was given.
pub fn fw_pdf_error_sidecar(dest: &str, dest_dir: &str, error_json: Option<String>) -> (r: (String, String))
    ensures
        r.0@ == crate::paths::path_join(
            dest_dir@,
            match crate::paths::file_stem(dest@) {
                Some(s) => s,
                None => "unknown"@,
            } + ".error.json"@,
        ),
        r.1@ == match error_json {
            Some(b) => b@,
            None => "{\"error\":\"unknown\"}"@,
        },
{
    let dv = crate::text::chars_of(dest);
    let mut n = match crate::paths::file_stem_exec(dv.as_slice()) {
        Some(st) => crate::text::string_of(st.as_slice()),
        None => String::from_str("unknown"),
    };
    n.append(".error.json");
    let nv = crate::text::chars_of(n.as_str());
    let dd = crate::text::chars_of(dest_dir);
    let j = crate::paths::join_chars(dd.as_slice(), nv.as_slice());
    let body = match error_json {
        Some(b) => b,
        None => String::from_str("{\"error\":\"unknown\"}"),
    };
    (crate::text::string_of(j.as_slice()), body)
}

} // verus!

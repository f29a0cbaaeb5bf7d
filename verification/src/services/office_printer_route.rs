//! Printer-first routing of Office documents: a document is printed to the FileWisely
//! printer through Word when the configuration prefers it, at most once per 20 minutes;
//! otherwise (or when printing fails) it goes to LibreOffice staging. Running Word and
//! the clock are the caller's.
use vstd::prelude::*;
use crate::ccc_import_settings::{ps_escape, ps_escape_single_quoted};
use crate::pdf_watch_config::{OfficeIngestionMode, PdfWatchConfig};
use crate::text::{has_sub, trim};

verus! {

/// A printed document is not routed again within this many milliseconds.
pub const ROUTE_TTL_MS: u64 = 1_200_000;

#[derive(Clone, Copy, Debug, PartialEq, Eq, Structural)]
pub enum OfficePrinterFirstResult {
    /// Printed recently: neither print nor convert again.
    SkipDuplicateWindow,
    /// Printed; the PDF arrives through the FileWisely printer.
    HandledByPrinter,
    /// Convert through staging.
    FallThroughToStaging,
}

/// The first step of printer-first routing.
#[derive(Clone, Copy, Debug, PartialEq, Eq, Structural)]
pub enum PrinterRoutePlan {
    /// Routed recently.
    SkipDuplicateWindow,
    /// The ingestion mode is staging.
    Staging,
    /// Print silently through Word, then see `printer_route_outcome`.
    PrintSilently,
    /// Silent printing is off: go on as after a failed print.
    NoSilentPrint,
}

pub open spec fn route_plan(recently_routed: bool, cfg: PdfWatchConfig) -> PrinterRoutePlan {
    if recently_routed {
        PrinterRoutePlan::SkipDuplicateWindow
    } else if cfg.office_ingestion_mode != OfficeIngestionMode::PrinterPreferred {
        PrinterRoutePlan::Staging
    } else if cfg.office_auto_print_silent {
        PrinterRoutePlan::PrintSilently
    } else {
        PrinterRoutePlan::NoSilentPrint
    }
}

pub fn printer_route_plan(recently_routed: bool, cfg: &PdfWatchConfig) -> (r: PrinterRoutePlan)
    ensures
        r == route_plan(recently_routed, *cfg),
{
    if recently_routed {
        PrinterRoutePlan::SkipDuplicateWindow
    } else if cfg.office_ingestion_mode != OfficeIngestionMode::PrinterPreferred {
        PrinterRoutePlan::Staging
    } else if cfg.office_auto_print_silent {
        PrinterRoutePlan::PrintSilently
    } else {
        PrinterRoutePlan::NoSilentPrint
    }
}

/// After a print attempt (or none): a successful print is handled by the printer;
/// otherwise staging, with the print prompt shown when the prompt fallback is on.
pub fn printer_route_outcome(printed: bool, prompt_fallback: bool) -> (r: (OfficePrinterFirstResult, bool))
    ensures
        printed ==> r == (OfficePrinterFirstResult::HandledByPrinter, false),
        !printed ==> r == (OfficePrinterFirstResult::FallThroughToStaging, prompt_fallback),
{
    if printed {
        (OfficePrinterFirstResult::HandledByPrinter, false)
    } else {
        (OfficePrinterFirstResult::FallThroughToStaging, prompt_fallback)
    }
}

/// Documents printed recently, by pipeline key, with when.
pub struct RoutedDocuments {
    pub routed: Vec<(String, u64)>,
}

pub open spec fn routed_view(v: Seq<(String, u64)>) -> Seq<(Seq<char>, u64)> {
    v.map_values(|p: (String, u64)| (p.0@, p.1))
}

/// The entries still within the TTL at `now`.
pub open spec fn live(v: Seq<(Seq<char>, u64)>, now: u64) -> Seq<(Seq<char>, u64)> {
    v.filter(within_ttl(now))
}

/// An entry routed less than the TTL before `now`.
pub open spec fn within_ttl(now: u64) -> spec_fn((Seq<char>, u64)) -> bool {
    |p: (Seq<char>, u64)| crate::services::ccc_batch::elapsed(now, p.1) < ROUTE_TTL_MS
}

pub open spec fn has_key(v: Seq<(Seq<char>, u64)>, key: Seq<char>) -> bool {
    exists|i: int| 0 <= i < v.len() && #[trigger] v[i].0 == key
}

/// The first entry for `key`.
pub open spec fn first_key(v: Seq<(Seq<char>, u64)>, key: Seq<char>) -> Option<int> {
    if has_key(v, key) {
        Some(
            choose|i: int|
                0 <= i < v.len() && #[trigger] v[i].0 == key && forall|j: int|
                    0 <= j < i ==> #[trigger] v[j].0 != key,
        )
    } else {
        None
    }
}

/// `key` routed at `now`: its entry's time set (in place), or a new entry.
pub open spec fn marked(v: Seq<(Seq<char>, u64)>, key: Seq<char>, now: u64) -> Seq<(Seq<char>, u64)> {
    match first_key(v, key) {
        Some(i) => v.update(i, (key, now)),
        None => v.push((key, now)),
    }
}

proof fn lemma_first_key(v: Seq<(Seq<char>, u64)>, key: Seq<char>, i: int)
    requires
        0 <= i < v.len(),
        v[i].0 == key,
        forall|j: int| 0 <= j < i ==> #[trigger] v[j].0 != key,
    ensures
        first_key(v, key) == Some(i),
{
    let c = choose|c: int|
        0 <= c < v.len() && #[trigger] v[c].0 == key && forall|j: int| 0 <= j < c ==> #[trigger] v[j].0 != key;
    assert(0 <= c < v.len() && v[c].0 == key && forall|j: int| 0 <= j < c ==> #[trigger] v[j].0 != key);
    if c < i {
        assert(v[c].0 != key);
    }
    if i < c {
        assert(v[i].0 != key);
    }
}

impl RoutedDocuments {
    pub fn new() -> (r: Self)
        ensures
            r.routed@.len() == 0,
    {
        RoutedDocuments { routed: Vec::new() }
    }

    fn prune(&mut self, now: u64)
        ensures
            routed_view(final(self).routed@) == live(routed_view(old(self).routed@), now),
    {
        let ghost v = routed_view(self.routed@);
        let mut kept: Vec<(String, u64)> = Vec::new();
        let mut i: usize = 0;
        while i < self.routed.len()
            invariant
                i <= self.routed@.len(),
                v == routed_view(self.routed@),
                routed_view(kept@) == live(v.take(i as int), now),
            decreases self.routed@.len() - i,
        {
            let ghost t = v.take(i as int);
            assert(v.take(i + 1) =~= t.push(v[i as int]));
            proof {
                t.lemma_filter_push(v[i as int], within_ttl(now));
            }
            if crate::services::ccc_batch::elapsed_ms(now, self.routed[i].1) < ROUTE_TTL_MS {
                let ghost prev = routed_view(kept@);
                kept.push((self.routed[i].0.clone(), self.routed[i].1));
                assert(routed_view(kept@) =~= prev.push(v[i as int]));
            }
            i = i + 1;
        }
        assert(v.take(self.routed@.len() as int) =~= v);
        self.routed = kept;
    }

    /// Whether the document was printed within the last 20 minutes (older entries are
    /// dropped).
    pub fn office_printer_recently_routed(&mut self, key: &str, now: u64) -> (b: bool)
        ensures
            routed_view(final(self).routed@) == live(routed_view(old(self).routed@), now),
            b == has_key(live(routed_view(old(self).routed@), now), key@),
    {
        self.prune(now);
        let ghost after = routed_view(self.routed@);
        let k = crate::text::chars_of(key);
        let mut i: usize = 0;
        while i < self.routed.len()
            invariant
                i <= self.routed@.len(),
                k@ == key@,
                after == routed_view(self.routed@),
                after == live(routed_view(old(self).routed@), now),
                forall|j: int| 0 <= j < i ==> #[trigger] routed_view(self.routed@)[j].0 != key@,
            decreases self.routed@.len() - i,
        {
            let c = crate::text::chars_of(self.routed[i].0.as_str());
            if crate::text::chars_eq(c.as_slice(), k.as_slice()) {
                assert(routed_view(self.routed@)[i as int].0 == key@);
                return true;
            }
            i = i + 1;
        }
        false
    }

    /// Records that the document was printed at `now` (older entries are dropped).
    pub fn mark_office_printer_routed(&mut self, key: &str, now: u64)
        ensures
            routed_view(final(self).routed@) == marked(live(routed_view(old(self).routed@), now), key@, now),
    {
        self.prune(now);
        let ghost after = routed_view(self.routed@);
        let k = crate::text::chars_of(key);
        let mut i: usize = 0;
        while i < self.routed.len()
            invariant
                i <= self.routed@.len(),
                k@ == key@,
                after == routed_view(self.routed@),
                after == live(routed_view(old(self).routed@), now),
                forall|j: int| 0 <= j < i ==> #[trigger] routed_view(self.routed@)[j].0 != key@,
            decreases self.routed@.len() - i,
        {
            let c = crate::text::chars_of(self.routed[i].0.as_str());
            if crate::text::chars_eq(c.as_slice(), k.as_slice()) {
                proof {
                    lemma_first_key(after, key@, i as int);
                }
                self.routed.set(i, (String::from_str(key), now));
                assert(routed_view(self.routed@) =~= after.update(i as int, (key@, now)));
                return;
            }
            i = i + 1;
        }
        proof {
            if has_key(after, key@) {
                let c = choose|c: int| 0 <= c < after.len() && #[trigger] after[c].0 == key@;
                assert(after[c].0 != key@);
            }
        }
        self.routed.push((String::from_str(key), now));
        assert(routed_view(self.routed@) =~= after.push((key@, now)));
    }
}

/// A document recorded as printed at `t` counts as recently routed at every `now` from
/// `t` until 20 minutes have passed, so it is not printed twice in that window.
pub proof fn law_marked_document_is_recent(
    v: Seq<(Seq<char>, u64)>,
    key: Seq<char>,
    t: u64,
    now: u64,
)
    requires
        t <= now,
        now - t < ROUTE_TTL_MS,
    ensures
        has_key(live(marked(live(v, t), key, t), now), key),
{
    let w = live(v, t);
    let i = lemma_marked_holds(w, key, t);
    let m = marked(w, key, t);
    assert(within_ttl(now)(m[i]));
    m.lemma_filter_contains(within_ttl(now), i);
    let f = m.filter(within_ttl(now));
    assert(f.contains(m[i]));
    let k = choose|k: int| 0 <= k < f.len() && f[k] == m[i];
    assert(f[k].0 == key);
}

proof fn lemma_marked_holds(w: Seq<(Seq<char>, u64)>, key: Seq<char>, t: u64) -> (i: int)
    ensures
        0 <= i < marked(w, key, t).len(),
        marked(w, key, t)[i] == (key, t),
{
    if has_key(w, key) {
        let i0 = choose|i: int| 0 <= i < w.len() && #[trigger] w[i].0 == key;
        let j = lemma_least_key(w, key, i0);
        lemma_first_key(w, key, j);
        j
    } else {
        w.len() as int
    }
}

proof fn lemma_least_key(w: Seq<(Seq<char>, u64)>, key: Seq<char>, i: int) -> (j: int)
    requires
        0 <= i < w.len(),
        w[i].0 == key,
    ensures
        0 <= j <= i,
        w[j].0 == key,
        forall|k: int| 0 <= k < j ==> #[trigger] w[k].0 != key,
    decreases i,
{
    if exists|k: int| 0 <= k < i && #[trigger] w[k].0 == key {
        let k = choose|k: int| 0 <= k < i && #[trigger] w[k].0 == key;
        lemma_least_key(w, key, k)
    } else {
        i
    }
}

/// The checks before Word prints a document: it must be a file with extension `doc`,
/// `docx` or `rtf` (lower-cased).
pub fn office_print_precheck(path: &str, is_file: bool) -> (r: Result<(), String>)
    ensures
        !is_file ==> (r matches Err(e) && e@ == "path is not a file"@),
        is_file ==> match crate::paths::extension(path@) {
            Some(e) => {
                let l = crate::text::unicode_lower(e);
                if l == "doc"@ || l == "docx"@ || l == "rtf"@ {
                    r is Ok
                } else {
                    r matches Err(m) && m@ == "not an Office document extension: "@ + l
                }
            },
            None => r matches Err(m) && m@ == "not an Office document extension: "@,
        },
{
    if !is_file {
        return Err(String::from_str("path is not a file"));
    }
    let pv = crate::text::chars_of(path);
    let found = crate::paths::extension_exec(pv.as_slice());
    proof {
        reveal_strlit("doc");
        reveal_strlit("docx");
        reveal_strlit("rtf");
    }
    match found {
        Some(e) => {
            let es = crate::text::string_of(e.as_slice());
            let ext = crate::text::str_to_lowercase(es.as_str());
            let ev = crate::text::chars_of(ext.as_str());
            assert(ev@ == crate::text::unicode_lower(e@));
            if crate::text::eq_str(ev.as_slice(), "doc") || crate::text::eq_str(ev.as_slice(), "docx")
                || crate::text::eq_str(ev.as_slice(), "rtf") {
                Ok(())
            } else {
                let mut m = String::from_str("not an Office document extension: ");
                m.append(ext.as_str());
                Err(m)
            }
        },
        None => {
            let m = String::from_str("not an Office document extension: ");
            Err(m)
        },
    }
}

/// What a Word print run reports: success when the process succeeded and printed `OK`;
/// `printer '{printer}' not found` when either stream says `PRINTER_NOT_FOUND`; else the
/// exit status and both streams (all streams trimmed).
pub open spec fn print_result(success: bool, stdout: Seq<char>, stderr: Seq<char>, status: Seq<char>, printer: Seq<char>) -> Result<
    (),
    Seq<char>,
> {
    let o = trim(stdout);
    let e = trim(stderr);
    if success && has_sub(o, "OK"@) {
        Ok(())
    } else if has_sub(o, "PRINTER_NOT_FOUND"@) || has_sub(e, "PRINTER_NOT_FOUND"@) {
        Err("printer '"@ + printer + "' not found"@)
    } else {
        Err("word_print exit="@ + status + " stdout="@ + o + " stderr="@ + e)
    }
}

pub fn word_print_result(success: bool, stdout: &str, stderr: &str, status: &str, printer: &str) -> (r: Result<
    (),
    String,
>)
    ensures
        match (r, print_result(success, stdout@, stderr@, status@, printer@)) {
            (Ok(_), Ok(_)) => true,
            (Err(m), Err(x)) => m@ == x,
            _ => false,
        },
{
    let o = crate::text::trim_string(stdout);
    let e = crate::text::trim_string(stderr);
    let ov = crate::text::chars_of(o.as_str());
    let ev = crate::text::chars_of(e.as_str());
    if success && crate::text::contains_str(ov.as_slice(), "OK") {
        return Ok(());
    }
    if crate::text::contains_str(ov.as_slice(), "PRINTER_NOT_FOUND") || crate::text::contains_str(
        ev.as_slice(),
        "PRINTER_NOT_FOUND",
    ) {
        let mut m = String::from_str("printer '");
        m.append(printer);
        m.append("' not found");
        return Err(m);
    }
    let mut m = String::from_str("word_print exit=");
    m.append(status);
    m.append(" stdout=");
    m.append(o.as_str());
    m.append(" stderr=");
    m.append(e.as_str());
    Err(m)
}

/// The PowerShell script that opens the document in a hidden Word and prints it to the
/// printer, both given as single-quoted PowerShell strings.
pub open spec fn print_script(doc_path: Seq<char>, printer: Seq<char>) -> Seq<char> {
    "\n$ErrorActionPreference = 'Stop'\n$docPath = '"@ + ps_escape(doc_path) + "'\n$want = '"@
        + ps_escape(printer) + script_body()
}

pub open spec fn script_body() -> Seq<char> {
    "'\n$prn = Get-CimInstance -ClassName Win32_Printer -ErrorAction SilentlyContinue | Where-Object { $_.Name -eq $want }\nif (-not $prn) { Write-Output 'PRINTER_NOT_FOUND'; exit 2 }\n$active = \"$($prn.Name) on $($prn.PortName)\"\n$word = $null\n$doc = $null\ntry {\n  $word = New-Object -ComObject Word.Application\n  $word.Visible = $false\n  $word.DisplayAlerts = 0\n  $word.ActivePrinter = $active\n  $doc = $word.Documents.Open($docPath, $false, $true, $false)\n  $doc.PrintOut($true)\n  Start-Sleep -Seconds 2\n} finally {\n  if ($null -ne $doc) { try { $doc.Close([ref]$false) } catch { } }\n  if ($null -ne $word) {\n    try { $word.Quit([ref]$false) } catch { }\n    [System.Runtime.InteropServices.Marshal]::ReleaseComObject($word) | Out-Null\n  }\n}\nWrite-Output 'OK'\nexit 0\n"@
}

pub fn word_print_script(doc_path: &str, printer: &str) -> (r: String)
    ensures
        r@ == print_script(doc_path@, printer@),
{
    let mut r = String::from_str("\n$ErrorActionPreference = 'Stop'\n$docPath = '");
    let d = ps_escape_single_quoted(doc_path);
    r.append(d.as_str());
    r.append("'\n$want = '");
    let p = ps_escape_single_quoted(printer);
    r.append(p.as_str());
    r.append(
        "'\n$prn = Get-CimInstance -ClassName Win32_Printer -ErrorAction SilentlyContinue | Where-Object { $_.Name -eq $want }\nif (-not $prn) { Write-Output 'PRINTER_NOT_FOUND'; exit 2 }\n$active = \"$($prn.Name) on $($prn.PortName)\"\n$word = $null\n$doc = $null\ntry {\n  $word = New-Object -ComObject Word.Application\n  $word.Visible = $false\n  $word.DisplayAlerts = 0\n  $word.ActivePrinter = $active\n  $doc = $word.Documents.Open($docPath, $false, $true, $false)\n  $doc.PrintOut($true)\n  Start-Sleep -Seconds 2\n} finally {\n  if ($null -ne $doc) { try { $doc.Close([ref]$false) } catch { } }\n  if ($null -ne $word) {\n    try { $word.Quit([ref]$false) } catch { }\n    [System.Runtime.InteropServices.Marshal]::ReleaseComObject($word) | Out-Null\n  }\n}\nWrite-Output 'OK'\nexit 0\n",
    );
    r
}

} // verus!

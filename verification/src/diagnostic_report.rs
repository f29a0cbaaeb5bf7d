//! The plain-text sections of the diagnostic report. The report is a list of parts:
//! text, or a place where the caller puts the pretty-printed JSON of a value (or the
//! formatted autodiscovery confidence), so that every line and fallback of the report
//! is decided here.
use vstd::prelude::*;
use crate::json::{entries_view, find_key, get, Entries, Json, JsonV};
use crate::text::{decimal, decimal_int, u64_to_string};

verus! {

pub enum ReportPart {
    Text(String),
    /// The pretty-printed JSON of the value under this key.
    PrettyOf(String),
    /// The pretty-printed JSON of the whole section.
    PrettyAll,
    /// The autodiscovery confidence with three decimals.
    Confidence,
}

pub enum PartV {
    Text(Seq<char>),
    PrettyOf(Seq<char>),
    PrettyAll,
    Confidence,
}

pub open spec fn part_view(p: ReportPart) -> PartV {
    match p {
        ReportPart::Text(s) => PartV::Text(s@),
        ReportPart::PrettyOf(k) => PartV::PrettyOf(k@),
        ReportPart::PrettyAll => PartV::PrettyAll,
        ReportPart::Confidence => PartV::Confidence,
    }
}

pub open spec fn parts_view(v: Seq<ReportPart>) -> Seq<PartV> {
    v.map_values(|p: ReportPart| part_view(p))
}

/// The entries of an object; none for any other value.
pub open spec fn fields(v: JsonV) -> Entries {
    match v {
        JsonV::Object(o) => entries_view(o@),
        _ => Seq::empty(),
    }
}

/// A string field, `""` when absent or not a string.
pub open spec fn gstr(m: Entries, k: Seq<char>) -> Seq<char> {
    match get(m, k) {
        Some(JsonV::Str(s)) => s,
        _ => Seq::empty(),
    }
}

/// A string field, or `dflt`.
pub open spec fn gstr_or(m: Entries, k: Seq<char>, dflt: Seq<char>) -> Seq<char> {
    match get(m, k) {
        Some(JsonV::Str(s)) => s,
        _ => dflt,
    }
}

pub open spec fn bool_word(b: bool) -> Seq<char> {
    if b {
        "true"@
    } else {
        "false"@
    }
}

/// A boolean field as `true` / `false`, `(missing)` when absent or not a boolean.
pub open spec fn gbool(m: Entries, k: Seq<char>) -> Seq<char> {
    match get(m, k) {
        Some(JsonV::Bool(b)) => bool_word(b),
        _ => "(missing)"@,
    }
}

/// A boolean field, `false` when absent or not a boolean.
pub open spec fn gbool_or_false(m: Entries, k: Seq<char>) -> bool {
    match get(m, k) {
        Some(JsonV::Bool(b)) => b,
        _ => false,
    }
}

/// A number text that is a whole number: optional `-`, then digits.
pub open spec fn whole_text(t: Seq<char>) -> bool {
    let d = if t.len() > 0 && t[0] == '-' {
        t.drop_first()
    } else {
        t
    };
    d.len() > 0 && crate::text::all_digits(d)
}

/// The value of a whole-number text.
pub open spec fn whole_value(t: Seq<char>) -> int {
    if t.len() > 0 && t[0] == '-' {
        -(crate::text::digits_value(t.drop_first()) as int)
    } else {
        crate::text::digits_value(t) as int
    }
}

/// `Value::as_i64`, as the text it prints: a whole number in the `i64` range.
pub open spec fn as_i64_text(v: Option<JsonV>) -> Option<Seq<char>> {
    match v {
        Some(JsonV::Number(t)) => if whole_text(t) && i64::MIN <= whole_value(t) <= i64::MAX {
            Some(decimal_int(whole_value(t)))
        } else {
            None
        },
        _ => None,
    }
}

/// `Value::as_u64`, as the text it prints: a non-negative whole number in the `u64` range.
pub open spec fn as_u64_text(v: Option<JsonV>) -> Option<Seq<char>> {
    match v {
        Some(JsonV::Number(t)) => if t.len() > 0 && crate::text::all_digits(t)
            && crate::text::digits_value(t) <= u64::MAX {
            Some(decimal(crate::text::digits_value(t)))
        } else {
            None
        },
        _ => None,
    }
}

/// `  - {s}` lines for the string items of a list.
pub open spec fn str_items(a: Seq<JsonV>) -> Seq<char>
    decreases a.len(),
{
    if a.len() == 0 {
        Seq::empty()
    } else {
        str_items(a.drop_last()) + match a.last() {
            JsonV::Str(s) => "  - "@ + s + "\n"@,
            _ => Seq::empty(),
        }
    }
}

pub open spec fn array_of(m: Entries, k: Seq<char>) -> Option<Seq<JsonV>> {
    match get(m, k) {
        Some(JsonV::Array(a)) => Some(crate::json::values_view(a@)),
        _ => None,
    }
}

/// A list section: `empty_note` when the list is empty, its string items, or
/// `  (missing)` when the key holds no list.
pub open spec fn list_section(m: Entries, k: Seq<char>, empty_note: Seq<char>) -> Seq<char> {
    match array_of(m, k) {
        Some(a) => (if a.len() == 0 {
            empty_note
        } else {
            Seq::empty()
        }) + str_items(a),
        None => "  (missing)\n"@,
    }
}

pub open spec fn header_text(m: Entries) -> Seq<char> {
    let detail = match get(m, "capture_pipeline_failure_detail"@) {
        Some(JsonV::Str(s)) => if s.len() > 0 {
            s
        } else {
            "(none)"@
        },
        _ => "(none)"@,
    };
    "capture_pipeline_status: "@ + gstr(m, "capture_pipeline_status"@) + "\n"@
        + "capture_pipeline_failure_detail: "@ + detail + "\n"@ + "watcher_platform: "@ + gstr(
        m,
        "watcher_platform"@,
    ) + "\n"@ + "pdf_watch_json_path: "@ + gstr(m, "pdf_watch_json_path"@) + "\n"@
        + "ccc_temp_watch_path: "@ + gstr(m, "ccc_temp_watch_path"@) + "\n"@
        + "watched_incoming_root (FW vs CCC temp): "@ + gstr(m, "watched_incoming_root"@) + "\n"@
        + "ccc_temp_watch_only_env (UCE_CCC_TEMP_WATCH_ONLY): "@ + gbool(
        m,
        "ccc_temp_watch_only_env"@,
    ) + "\n"@
}

/// The keys of the pipeline stage rings, in report order.
pub open spec fn ring_keys() -> Seq<Seq<char>> {
    seq![
        "last_detected_files"@,
        "last_rejected_files"@,
        "last_accepted_files"@,
        "last_copy_attempts"@,
        "last_copy_successes"@,
        "last_copy_failures"@,
        "last_emitted_incoming_files"@,
        "last_upload_attempts"@,
        "last_upload_successes"@,
        "last_upload_failures"@,
    ]
}

/// For each ring present: its key, its pretty JSON, a blank line.
pub open spec fn ring_parts(m: Entries, keys: Seq<Seq<char>>) -> Seq<PartV>
    decreases keys.len(),
{
    if keys.len() == 0 {
        Seq::empty()
    } else {
        let k = keys.last();
        ring_parts(m, keys.drop_last()) + if get(m, k) is Some {
            seq![PartV::Text(k + ":\n"@), PartV::PrettyOf(k), PartV::Text("\n\n"@)]
        } else {
            Seq::empty()
        }
    }
}

pub open spec fn last_run_text(m: Entries) -> Seq<char> {
    match as_i64_text(get(m, "ccc_autodiscovery_last_run_unix_ms"@)) {
        Some(t) => "ccc_autodiscovery_last_run_unix_ms: "@ + t + "\n"@,
        None => "ccc_autodiscovery_last_run_unix_ms: (never)\n"@,
    }
}

/// The first 24 candidates, and how many more there are.
pub open spec fn candidates_text(m: Entries) -> Seq<char> {
    match array_of(m, "ccc_autodiscovery_candidates"@) {
        Some(a) => (if a.len() == 0 {
            "  (none)\n"@
        } else {
            Seq::empty()
        }) + str_items(a.take(if a.len() < 24 {
            a.len() as int
        } else {
            24
        })) + if a.len() > 24 {
            "  \u{2026} "@ + decimal((a.len() - 24) as nat) + " more\n"@
        } else {
            Seq::empty()
        },
        None => "  (missing)\n"@,
    }
}

pub open spec fn watch_root_count_text(m: Entries) -> Seq<char> {
    "watch_root_count: "@ + match as_u64_text(get(m, "watch_root_count"@)) {
        Some(t) => t,
        None => "(missing)"@,
    } + "\n"@
}

/// `  [n] {path}  (rule={rule})` for each of the first 48 roots (`?` for a missing part).
pub open spec fn root_lines(a: Seq<JsonV>) -> Seq<char>
    decreases a.len(),
{
    if a.len() == 0 {
        Seq::empty()
    } else {
        let item = fields(a.last());
        root_lines(a.drop_last()) + "  ["@ + decimal(a.len()) + "] "@ + gstr_or(item, "path"@, "?"@)
            + "  (rule="@ + gstr_or(item, "rule"@, "?"@) + ")\n"@
    }
}

pub open spec fn watch_roots_text(m: Entries) -> Seq<char> {
    "watch_roots:\n"@ + match array_of(m, "watch_roots"@) {
        Some(a) => (if a.len() == 0 {
            "  (none listed)\n"@
        } else {
            Seq::empty()
        }) + root_lines(a.take(if a.len() < 48 {
            a.len() as int
        } else {
            48
        })) + if a.len() > 48 {
            "  \u{2026} "@ + decimal((a.len() - 48) as nat)
                + " more roots omitted (see full capture_pipeline JSON)\n"@
        } else {
            Seq::empty()
        },
        None => "  (missing)\n"@,
    }
}

pub open spec fn hints_text(m: Entries) -> Seq<char> {
    "trace_hints:\n"@ + match array_of(m, "trace_hints"@) {
        Some(a) => str_items(a),
        None => "  (missing)\n"@,
    }
}

/// The middle of the report, after the rings and before the confidence.
pub open spec fn discovery_text(m: Entries) -> Seq<char> {
    "general_document_capture_enabled: "@ + gbool(m, "general_document_capture_enabled"@)
        + "\n"@ + "auto_discovered_ccc_dirs (persisted in uce-pdf-watch.json):\n"@ + list_section(
        m,
        "auto_discovered_ccc_dirs"@,
        "  (none)\n"@,
    ) + last_run_text(m) + "ccc_autodiscovery_confidence: "@
}

/// The end of the report, after the confidence and before the full JSON.
pub open spec fn roots_and_files_text(m: Entries) -> Seq<char> {
    "\n"@ + "ccc_autodiscovery_candidates (sample):\n"@ + candidates_text(m) + watch_root_count_text(m)
        + watch_roots_text(m) + "last_files_seen_ring_buffer (CCC-related, chronological):\n"@
        + list_section(
        m,
        "last_files_seen_ring_buffer"@,
        "  (empty \u{2014} no CCC-related files recorded yet this session)\n"@,
    ) + "last_20_ccc_files_seen:\n"@ + list_section(m, "last_20_ccc_files_seen"@, "  (empty)\n"@)
        + hints_text(m) + "\n--- capture_pipeline (full JSON) ---\n"@
}

/// The capture-pipeline section of the report.
pub open spec fn capture_pipeline_parts(cp: JsonV) -> Seq<PartV> {
    let m = fields(cp);
    seq![PartV::Text(header_text(m))] + (if get(m, "printer_alert"@) is Some {
        seq![
            PartV::Text("printer_alert (policy snapshot):\n"@),
            PartV::PrettyOf("printer_alert"@),
            PartV::Text("\n"@),
        ]
    } else {
        Seq::empty()
    }) + seq![PartV::Text("--- pipeline stage rings (recent, Connection Doctor JSON keys) ---\n"@)]
        + ring_parts(m, ring_keys()) + seq![
        PartV::Text(discovery_text(m)),
        PartV::Confidence,
        PartV::Text(roots_and_files_text(m)),
        PartV::PrettyAll,
        PartV::Text("\n"@),
    ]
}

// ---------------------------------------------------------------------------

fn string_field(m: &Vec<(String, Json)>, k: &str, dflt: &str) -> (r: String)
    ensures
        r@ == gstr_or(entries_view(m@), k@, dflt@),
{
    match find_key(m, k) {
        Some(i) => match &m[i].1 {
            Json::Str(s) => s.clone(),
            _ => String::from_str(dflt),
        },
        None => String::from_str(dflt),
    }
}

fn bool_field(m: &Vec<(String, Json)>, k: &str) -> (r: String)
    ensures
        r@ == gbool(entries_view(m@), k@),
{
    match find_key(m, k) {
        Some(i) => match &m[i].1 {
            Json::Bool(b) => if *b {
                String::from_str("true")
            } else {
                String::from_str("false")
            },
            _ => String::from_str("(missing)"),
        },
        None => String::from_str("(missing)"),
    }
}

fn array_field<'a>(m: &'a Vec<(String, Json)>, k: &str) -> (r: Option<&'a Vec<Json>>)
    ensures
        match r {
            Some(a) => array_of(entries_view(m@), k@) == Some(crate::json::values_view(a@)),
            None => array_of(entries_view(m@), k@) is None,
        },
{
    match find_key(m, k) {
        Some(i) => match &m[i].1 {
            Json::Array(a) => Some(a),
            _ => None,
        },
        None => None,
    }
}

/// `str_items` of the first `n` items.
fn items_text(out: &mut String, a: &Vec<Json>, n: usize)
    requires
        n <= a@.len(),
    ensures
        final(out)@ == old(out)@ + str_items(crate::json::values_view(a@).take(n as int)),
{
    let ghost av = crate::json::values_view(a@);
    let ghost o0 = out@;
    let mut i: usize = 0;
    while i < n
        invariant
            i <= n <= a@.len(),
            av == crate::json::values_view(a@),
            out@ == o0 + str_items(av.take(i as int)),
        decreases n - i,
    {
        assert(av.take(i + 1).drop_last() =~= av.take(i as int));
        assert(av.take(i + 1).last() == a@[i as int]@);
        match &a[i] {
            Json::Str(s) => {
                out.append("  - ");
                out.append(s.as_str());
                out.append("\n");
            },
            _ => {},
        }
        i = i + 1;
    }
}

fn list_text(out: &mut String, m: &Vec<(String, Json)>, k: &str, empty_note: &str)
    ensures
        final(out)@ == old(out)@ + list_section(entries_view(m@), k@, empty_note@),
{
    match array_field(m, k) {
        Some(a) => {
            if a.len() == 0 {
                out.append(empty_note);
            }
            items_text(out, a, a.len());
            assert(crate::json::values_view(a@).take(a.len() as int) =~= crate::json::values_view(
                a@,
            ));
        },
        None => out.append("  (missing)\n"),
    }
}

fn whole_number_text(t: &String, signed: bool) -> (r: Option<String>)
    ensures
        signed ==> opt_text(r) == as_i64_text(Some(JsonV::Number(t@))),
        !signed ==> opt_text(r) == as_u64_text(Some(JsonV::Number(t@))),
{
    let v = crate::text::chars_of(t.as_str());
    let negative = signed && v.len() > 0 && v[0] == '-';
    let start: usize = if negative {
        1
    } else {
        0
    };
    let digits = crate::text::slice_chars(v.as_slice(), start, v.len());
    assert(digits@ =~= if negative {
        t@.drop_first()
    } else {
        t@
    });
    if digits.len() == 0 || !crate::text::all_digits_exec(digits.as_slice()) {
        proof {
            if !signed && t@.len() > 0 && crate::text::all_digits(t@) {
                assert(t@[0] != '-');
            }
        }
        return None;
    }
    let ds = crate::text::string_of(digits.as_slice());
    let mag = crate::text::parse_u64(ds.as_str());
    proof {
        if ds@.len() > 0 {
            assert(ds@[0] != '+') by {
                assert(crate::text::is_digit(ds@[0]));
            }
        }
    }
    match mag {
        None => None,
        Some(m) => {
            if !signed {
                return Some(u64_to_string(m));
            }
            if negative {
                if m > 0x8000_0000_0000_0000u64 {
                    return None;
                }
                let x: i128 = -(m as i128);
                Some(crate::text::i64_to_string(x as i64))
            } else {
                if m > 0x7fff_ffff_ffff_ffffu64 {
                    return None;
                }
                Some(crate::text::i64_to_string(m as i64))
            }
        },
    }
}

pub open spec fn opt_text(o: Option<String>) -> Option<Seq<char>> {
    match o {
        Some(s) => Some(s@),
        None => None,
    }
}

fn number_field(m: &Vec<(String, Json)>, k: &str, signed: bool) -> (r: Option<String>)
    ensures
        signed ==> opt_text(r) == as_i64_text(get(entries_view(m@), k@)),
        !signed ==> opt_text(r) == as_u64_text(get(entries_view(m@), k@)),
{
    match find_key(m, k) {
        Some(i) => match &m[i].1 {
            Json::Number(t) => whole_number_text(t, signed),
            _ => None,
        },
        None => None,
    }
}

fn header_string(m: &Vec<(String, Json)>) -> (r: String)
    ensures
        r@ == header_text(entries_view(m@)),
{
    let detail = match find_key(m, "capture_pipeline_failure_detail") {
        Some(i) => match &m[i].1 {
            Json::Str(s) => if s.as_str().is_empty() {
                String::from_str("(none)")
            } else {
                s.clone()
            },
            _ => String::from_str("(none)"),
        },
        None => String::from_str("(none)"),
    };
    let mut out = String::from_str("capture_pipeline_status: ");
    let a = string_field(m, "capture_pipeline_status", "");
    out.append(a.as_str());
    out.append("\n");
    out.append("capture_pipeline_failure_detail: ");
    out.append(detail.as_str());
    out.append("\n");
    out.append("watcher_platform: ");
    let b = string_field(m, "watcher_platform", "");
    out.append(b.as_str());
    out.append("\n");
    out.append("pdf_watch_json_path: ");
    let c = string_field(m, "pdf_watch_json_path", "");
    out.append(c.as_str());
    out.append("\n");
    out.append("ccc_temp_watch_path: ");
    let d = string_field(m, "ccc_temp_watch_path", "");
    out.append(d.as_str());
    out.append("\n");
    out.append("watched_incoming_root (FW vs CCC temp): ");
    let e = string_field(m, "watched_incoming_root", "");
    out.append(e.as_str());
    out.append("\n");
    out.append("ccc_temp_watch_only_env (UCE_CCC_TEMP_WATCH_ONLY): ");
    let f = bool_field(m, "ccc_temp_watch_only_env");
    out.append(f.as_str());
    out.append("\n");
    proof {
        reveal_strlit("");
    }
    out
}

fn push_text(parts: &mut Vec<ReportPart>, s: String)
    ensures
        parts_view(final(parts)@) == parts_view(old(parts)@).push(PartV::Text(s@)),
{
    let ghost p0 = parts_view(parts@);
    let ghost sv = s@;
    parts.push(ReportPart::Text(s));
    assert(parts_view(parts@) =~= p0.push(PartV::Text(sv)));
}

fn push_part(parts: &mut Vec<ReportPart>, p: ReportPart)
    ensures
        parts_view(final(parts)@) == parts_view(old(parts)@).push(part_view(p)),
{
    let ghost p0 = parts_view(parts@);
    let ghost pv = part_view(p);
    parts.push(p);
    assert(parts_view(parts@) =~= p0.push(pv));
}

fn discovery_string(m: &Vec<(String, Json)>) -> (r: String)
    ensures
        r@ == discovery_text(entries_view(m@)),
{
    let mut out = String::from_str("general_document_capture_enabled: ");
    let g = bool_field(m, "general_document_capture_enabled");
    out.append(g.as_str());
    out.append("\n");
    out.append("auto_discovered_ccc_dirs (persisted in uce-pdf-watch.json):\n");
    list_text(&mut out, m, "auto_discovered_ccc_dirs", "  (none)\n");
    match number_field(m, "ccc_autodiscovery_last_run_unix_ms", true) {
        Some(t) => {
            out.append("ccc_autodiscovery_last_run_unix_ms: ");
            out.append(t.as_str());
            out.append("\n");
        },
        None => out.append("ccc_autodiscovery_last_run_unix_ms: (never)\n"),
    }
    out.append("ccc_autodiscovery_confidence: ");
    out
}

fn candidates_string(out: &mut String, m: &Vec<(String, Json)>)
    ensures
        final(out)@ == old(out)@ + candidates_text(entries_view(m@)),
{
    match array_field(m, "ccc_autodiscovery_candidates") {
        Some(a) => {
            if a.len() == 0 {
                out.append("  (none)\n");
            }
            let n = if a.len() < 24 {
                a.len()
            } else {
                24
            };
            items_text(out, a, n);
            if a.len() > 24 {
                out.append("  \u{2026} ");
                let d = u64_to_string((a.len() - 24) as u64);
                out.append(d.as_str());
                out.append(" more\n");
            }
        },
        None => out.append("  (missing)\n"),
    }
}

fn root_lines_string(out: &mut String, a: &Vec<Json>, n: usize)
    requires
        n <= a@.len(),
    ensures
        final(out)@ == old(out)@ + root_lines(crate::json::values_view(a@).take(n as int)),
{
    let ghost av = crate::json::values_view(a@);
    let ghost o0 = out@;
    let mut i: usize = 0;
    while i < n
        invariant
            i <= n <= a@.len(),
            av == crate::json::values_view(a@),
            out@ == o0 + root_lines(av.take(i as int)),
        decreases n - i,
    {
        assert(av.take(i + 1).drop_last() =~= av.take(i as int));
        assert(av.take(i + 1).last() == a@[i as int]@);
        let empty: Vec<(String, Json)> = Vec::new();
        let item: &Vec<(String, Json)> = match &a[i] {
            Json::Object(o) => o,
            _ => &empty,
        };
        assert(entries_view(item@) == fields(a@[i as int]@)) by {
            assert(entries_view(empty@) =~= Seq::<(Seq<char>, JsonV)>::empty());
        }
        out.append("  [");
        let d = u64_to_string((i + 1) as u64);
        out.append(d.as_str());
        out.append("] ");
        let p = string_field(item, "path", "?");
        out.append(p.as_str());
        out.append("  (rule=");
        let r = string_field(item, "rule", "?");
        out.append(r.as_str());
        out.append(")\n");
        i = i + 1;
    }
}

fn roots_string(out: &mut String, m: &Vec<(String, Json)>)
    ensures
        final(out)@ == old(out)@ + watch_roots_text(entries_view(m@)),
{
    out.append("watch_roots:\n");
    match array_field(m, "watch_roots") {
        Some(a) => {
            if a.len() == 0 {
                out.append("  (none listed)\n");
            }
            let n = if a.len() < 48 {
                a.len()
            } else {
                48
            };
            root_lines_string(out, a, n);
            if a.len() > 48 {
                out.append("  \u{2026} ");
                let d = u64_to_string((a.len() - 48) as u64);
                out.append(d.as_str());
                out.append(" more roots omitted (see full capture_pipeline JSON)\n");
            }
        },
        None => out.append("  (missing)\n"),
    }
}

fn tail_string(m: &Vec<(String, Json)>) -> (r: String)
    ensures
        r@ == roots_and_files_text(entries_view(m@)),
{
    let mut out = String::from_str("\n");
    out.append("ccc_autodiscovery_candidates (sample):\n");
    candidates_string(&mut out, m);
    out.append("watch_root_count: ");
    match number_field(m, "watch_root_count", false) {
        Some(t) => out.append(t.as_str()),
        None => out.append("(missing)"),
    }
    out.append("\n");
    roots_string(&mut out, m);
    out.append("last_files_seen_ring_buffer (CCC-related, chronological):\n");
    list_text(
        &mut out,
        m,
        "last_files_seen_ring_buffer",
        "  (empty \u{2014} no CCC-related files recorded yet this session)\n",
    );
    out.append("last_20_ccc_files_seen:\n");
    list_text(&mut out, m, "last_20_ccc_files_seen", "  (empty)\n");
    out.append("trace_hints:\n");
    match array_field(m, "trace_hints") {
        Some(a) => {
            items_text(&mut out, a, a.len());
            assert(crate::json::values_view(a@).take(a.len() as int) =~= crate::json::values_view(
                a@,
            ));
        },
        None => out.append("  (missing)\n"),
    }
    out.append("\n--- capture_pipeline (full JSON) ---\n");
    out
}

/// The capture-pipeline section of the diagnostic report (see `capture_pipeline_parts`).
pub fn format_capture_pipeline_plain(cp: &Json) -> (r: Vec<ReportPart>)
    ensures
        parts_view(r@) == capture_pipeline_parts(cp@),
{
    let empty: Vec<(String, Json)> = Vec::new();
    let m: &Vec<(String, Json)> = match cp {
        Json::Object(o) => o,
        _ => &empty,
    };
    assert(entries_view(m@) == fields(cp@)) by {
        assert(entries_view(empty@) =~= Seq::<(Seq<char>, JsonV)>::empty());
    }
    let ghost e = entries_view(m@);
    let mut parts: Vec<ReportPart> = Vec::new();
    push_text(&mut parts, header_string(m));
    if find_key(m, "printer_alert").is_some() {
        push_text(&mut parts, String::from_str("printer_alert (policy snapshot):\n"));
        push_part(&mut parts, ReportPart::PrettyOf(String::from_str("printer_alert")));
        push_text(&mut parts, String::from_str("\n"));
    }
    push_text(
        &mut parts,
        String::from_str("--- pipeline stage rings (recent, Connection Doctor JSON keys) ---\n"),
    );
    let ghost before_rings = parts_view(parts@);
    let keys: [&str; 10] = [
        "last_detected_files",
        "last_rejected_files",
        "last_accepted_files",
        "last_copy_attempts",
        "last_copy_successes",
        "last_copy_failures",
        "last_emitted_incoming_files",
        "last_upload_attempts",
        "last_upload_successes",
        "last_upload_failures",
    ];
    assert(keys@.map_values(|k: &str| k@) =~= ring_keys());
    let mut i: usize = 0;
    while i < 10
        invariant
            i <= 10,
            keys@.map_values(|k: &str| k@) == ring_keys(),
            e == entries_view(m@),
            parts_view(parts@) == before_rings + ring_parts(e, ring_keys().take(i as int)),
        decreases 10 - i,
    {
        let k = keys[i];
        assert(ring_keys().take(i + 1).drop_last() =~= ring_keys().take(i as int));
        assert(ring_keys().take(i + 1).last() == k@);
        if find_key(m, k).is_some() {
            let mut t = String::from_str(k);
            t.append(":\n");
            push_text(&mut parts, t);
            push_part(&mut parts, ReportPart::PrettyOf(String::from_str(k)));
            push_text(&mut parts, String::from_str("\n\n"));
        }
        i = i + 1;
    }
    assert(ring_keys().take(10) =~= ring_keys());
    push_text(&mut parts, discovery_string(m));
    push_part(&mut parts, ReportPart::Confidence);
    push_text(&mut parts, tail_string(m));
    push_part(&mut parts, ReportPart::PrettyAll);
    push_text(&mut parts, String::from_str("\n"));
    assert(parts_view(parts@) =~= capture_pipeline_parts(cp@));
    parts
}

// ---------------------------------------------------------------------------
// CCC Import writer section
// ---------------------------------------------------------------------------

pub open spec fn i64_or_zero(m: Entries, k: Seq<char>) -> Seq<char> {
    match as_i64_text(get(m, k)) {
        Some(t) => t,
        None => "0"@,
    }
}

pub open spec fn u64_or_zero(m: Entries, k: Seq<char>) -> Seq<char> {
    match as_u64_text(get(m, k)) {
        Some(t) => t,
        None => "0"@,
    }
}

/// The CCC Import writer section of the diagnostic report.
pub open spec fn ccc_writer_text(cw: JsonV) -> Seq<char> {
    let m = fields(cw);
    "=== CCC Import writer (cloud \u{2192} local) ===\n"@ + "ccc_import_root: "@ + gstr_or(
        m,
        "ccc_import_root"@,
        "?"@,
    ) + "\n"@ + "ccc_import_writable: "@ + bool_word(gbool_or_false(m, "ccc_import_writable"@))
        + "\n"@ + "claim_offline: "@ + bool_word(gbool_or_false(m, "claim_offline"@)) + "\n"@
        + "sync_paused: "@ + bool_word(gbool_or_false(m, "sync_paused"@)) + "\n"@
        + "last_claim_error: "@ + gstr_or(m, "last_claim_error"@, "(none)"@) + "\n"@
        + "last_write_error: "@ + gstr_or(m, "last_write_error"@, "(none)"@) + "\n"@
        + "last_write_unix_ms: "@ + i64_or_zero(m, "last_write_unix_ms"@) + "\n"@
        + "syncing_count: "@ + u64_or_zero(m, "syncing_count"@) + "\n"@
        + "last_claim_batch_count: "@ + u64_or_zero(m, "last_claim_batch_count"@) + "\n"@
        + "last_claim_parsed_unix_ms: "@ + i64_or_zero(m, "last_claim_parsed_unix_ms"@) + "\n"@
        + "last_ack_ok_count: "@ + u64_or_zero(m, "last_ack_ok_count"@) + "\n"@
        + "last_ack_fail_count: "@ + u64_or_zero(m, "last_ack_fail_count"@) + "\n"@
        + "last_ack_ok_unix_ms: "@ + i64_or_zero(m, "last_ack_ok_unix_ms"@) + "\n"@
        + "last_ack_error: "@ + gstr_or(m, "last_ack_error"@, "(none)"@) + "\n"@ + "\n"@
}

fn flag_field(out: &mut String, m: &Vec<(String, Json)>, k: &str)
    ensures
        final(out)@ == old(out)@ + bool_word(gbool_or_false(entries_view(m@), k@)),
{
    let b = match find_key(m, k) {
        Some(i) => match &m[i].1 {
            Json::Bool(b) => *b,
            _ => false,
        },
        None => false,
    };
    if b {
        out.append("true");
    } else {
        out.append("false");
    }
}

fn number_or_zero(out: &mut String, m: &Vec<(String, Json)>, k: &str, signed: bool)
    ensures
        signed ==> final(out)@ == old(out)@ + i64_or_zero(entries_view(m@), k@),
        !signed ==> final(out)@ == old(out)@ + u64_or_zero(entries_view(m@), k@),
{
    match number_field(m, k, signed) {
        Some(t) => out.append(t.as_str()),
        None => out.append("0"),
    }
}

fn text_or(out: &mut String, m: &Vec<(String, Json)>, k: &str, dflt: &str)
    ensures
        final(out)@ == old(out)@ + gstr_or(entries_view(m@), k@, dflt@),
{
    let t = string_field(m, k, dflt);
    out.append(t.as_str());
}

/// See `ccc_writer_text`.
pub fn format_ccc_writer_plain(cw: &Json) -> (r: String)
    ensures
        r@ == ccc_writer_text(cw@),
{
    let empty: Vec<(String, Json)> = Vec::new();
    let m: &Vec<(String, Json)> = match cw {
        Json::Object(o) => o,
        _ => &empty,
    };
    assert(entries_view(m@) == fields(cw@)) by {
        assert(entries_view(empty@) =~= Seq::<(Seq<char>, JsonV)>::empty());
    }
    let mut out = String::from_str("=== CCC Import writer (cloud \u{2192} local) ===\n");
    out.append("ccc_import_root: ");
    text_or(&mut out, m, "ccc_import_root", "?");
    out.append("\n");
    out.append("ccc_import_writable: ");
    flag_field(&mut out, m, "ccc_import_writable");
    out.append("\n");
    out.append("claim_offline: ");
    flag_field(&mut out, m, "claim_offline");
    out.append("\n");
    out.append("sync_paused: ");
    flag_field(&mut out, m, "sync_paused");
    out.append("\n");
    out.append("last_claim_error: ");
    text_or(&mut out, m, "last_claim_error", "(none)");
    out.append("\n");
    out.append("last_write_error: ");
    text_or(&mut out, m, "last_write_error", "(none)");
    out.append("\n");
    out.append("last_write_unix_ms: ");
    number_or_zero(&mut out, m, "last_write_unix_ms", true);
    out.append("\n");
    out.append("syncing_count: ");
    number_or_zero(&mut out, m, "syncing_count", false);
    out.append("\n");
    out.append("last_claim_batch_count: ");
    number_or_zero(&mut out, m, "last_claim_batch_count", false);
    out.append("\n");
    out.append("last_claim_parsed_unix_ms: ");
    number_or_zero(&mut out, m, "last_claim_parsed_unix_ms", true);
    out.append("\n");
    out.append("last_ack_ok_count: ");
    number_or_zero(&mut out, m, "last_ack_ok_count", false);
    out.append("\n");
    out.append("last_ack_fail_count: ");
    number_or_zero(&mut out, m, "last_ack_fail_count", false);
    out.append("\n");
    out.append("last_ack_ok_unix_ms: ");
    number_or_zero(&mut out, m, "last_ack_ok_unix_ms", true);
    out.append("\n");
    out.append("last_ack_error: ");
    text_or(&mut out, m, "last_ack_error", "(none)");
    out.append("\n");
    out.append("\n");
    out
}

} // verus!

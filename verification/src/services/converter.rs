//! Office → PDF ingestion: which files are Office documents or PDFs, where a claimed
//! file is staged and under which name, how a claim retries and when it gives up, and
//! the paths, arguments and errors of a LibreOffice conversion. Renames, copies,
//! sleeps and the LibreOffice process are the caller's.
use vstd::prelude::*;
use crate::paths::{extension, extension_exec, file_name, file_stem, file_stem_exec, path_join, split_seps, vviews};
use crate::text::{
    decimal, eq_ignore_ascii_case, eq_ignore_ascii_case_str, hex_padded, str_to_lowercase,
    string_of, trim, unicode_lower, u128_to_string, u64_to_string,
};

verus! {

/// Returned when another pipeline already owns the path.
pub const DUPLICATE_OFFICE_PIPELINE_SKIPPED: &'static str = "duplicate office pipeline (skipped)";

/// LibreOffice is run at most this many times per file.
pub const CONVERT_RETRIES: usize = 4;

pub open spec fn office_ext(e: Seq<char>) -> bool {
    e == "doc"@ || e == "docx"@ || e == "rtf"@ || e == "xls"@ || e == "xlsx"@ || e == "xlsm"@ || e
        == "ppt"@ || e == "pptx"@ || e == "odt"@ || e == "ods"@ || e == "odp"@
}

/// A path whose extension (lower-cased) is a document LibreOffice converts.
pub open spec fn convertible_office(p: Seq<char>) -> bool {
    match extension(p) {
        Some(e) => office_ext(unicode_lower(e)),
        None => false,
    }
}

fn office_ext_exec(e: &[char]) -> (b: bool)
    ensures
        b == office_ext(e@),
{
    crate::text::eq_str(e, "doc") || crate::text::eq_str(e, "docx") || crate::text::eq_str(e, "rtf")
        || crate::text::eq_str(e, "xls") || crate::text::eq_str(e, "xlsx") || crate::text::eq_str(
        e,
        "xlsm",
    ) || crate::text::eq_str(e, "ppt") || crate::text::eq_str(e, "pptx") || crate::text::eq_str(
        e,
        "odt",
    ) || crate::text::eq_str(e, "ods") || crate::text::eq_str(e, "odp")
}

pub fn is_convertible_office_path(path: &str) -> (b: bool)
    ensures
        b == convertible_office(path@),
{
    let pv = crate::text::chars_of(path);
    match extension_exec(pv.as_slice()) {
        Some(e) => {
            let es = string_of(e.as_slice());
            let l = crate::text::lower_chars(es.as_str());
            office_ext_exec(l.as_slice())
        },
        None => false,
    }
}

/// A path with extension `pdf` in any ASCII letter case.
pub open spec fn pdf_path(p: Seq<char>) -> bool {
    match extension(p) {
        Some(e) => eq_ignore_ascii_case(e, "pdf"@),
        None => false,
    }
}

pub fn is_pdf(path: &str) -> (b: bool)
    ensures
        b == pdf_path(path@),
{
    let pv = crate::text::chars_of(path);
    match extension_exec(pv.as_slice()) {
        Some(e) => eq_ignore_ascii_case_str(e.as_slice(), "pdf"),
        None => false,
    }
}

/// Some component of the path is `.uce_staging` (any ASCII letter case).
pub open spec fn under_uce_staging(p: Seq<char>) -> bool {
    exists|i: int| 0 <= i < split_seps(p).len() && eq_ignore_ascii_case(
        #[trigger] split_seps(p)[i],
        ".uce_staging"@,
    )
}

pub fn path_is_under_uce_staging(path: &str) -> (b: bool)
    ensures
        b == under_uce_staging(path@),
{
    let pv = crate::text::chars_of(path);
    let parts = crate::paths::split_seps_exec(pv.as_slice());
    let ghost ps = vviews(parts@);
    let mut i: usize = 0;
    while i < parts.len()
        invariant
            i <= parts@.len(),
            ps == vviews(parts@),
            ps == split_seps(path@),
            forall|j: int| 0 <= j < i ==> !eq_ignore_ascii_case(#[trigger] ps[j], ".uce_staging"@),
        decreases parts@.len() - i,
    {
        if eq_ignore_ascii_case_str(parts[i].as_slice(), ".uce_staging") {
            assert(eq_ignore_ascii_case(ps[i as int], ".uce_staging"@));
            return true;
        }
        i = i + 1;
    }
    false
}

/// A staged file name `{digits}_{stem}` back to `{stem}`; other stems as they are.
pub open spec fn strip_nano(stem: Seq<char>) -> Seq<char> {
    let n = leading_digits(stem);
    if 0 < n < stem.len() && stem[n] == '_' {
        stem.skip(n + 1)
    } else {
        stem
    }
}

/// The number of ASCII digits at the start.
pub open spec fn leading_digits(s: Seq<char>) -> int
    decreases s.len(),
{
    if s.len() > 0 && crate::text::is_digit(s[0]) {
        1 + leading_digits(s.drop_first())
    } else {
        0
    }
}

pub fn strip_nano_stem_prefix(stem: &str) -> (r: String)
    ensures
        r@ == strip_nano(stem@),
{
    let v = crate::text::chars_of(stem);
    let mut i: usize = 0;
    assert(v@.skip(0) =~= v@);
    while i < v.len() && crate::text::char_is_digit(v[i])
        invariant
            i <= v@.len(),
            leading_digits(v@) == i + leading_digits(v@.skip(i as int)),
        decreases v@.len() - i,
    {
        assert(v@.skip(i as int).drop_first() =~= v@.skip(i + 1));
        i = i + 1;
    }
    assert(leading_digits(v@) == i) by {
        assert(v@.skip(i as int).len() == 0 || !crate::text::is_digit(v@.skip(i as int)[0]));
    }
    if i > 0 && i < v.len() && v[i] == '_' {
        string_of(crate::text::slice_chars(v.as_slice(), i + 1, v.len()).as_slice())
    } else {
        String::from_str(stem)
    }
}

/// The PDF stem of a staged Office file: its stem without the `{nanos}_` prefix.
pub fn pdf_stem_from_staged_filename(path: &str) -> (r: Result<String, String>)
    ensures
        match file_stem(path@) {
            Some(s) => r matches Ok(t) && t@ == strip_nano(s),
            None => r matches Err(e) && e@ == "Office file has no stem"@,
        },
{
    let pv = crate::text::chars_of(path);
    match file_stem_exec(pv.as_slice()) {
        Some(s) => {
            let st = string_of(s.as_slice());
            Ok(strip_nano_stem_prefix(st.as_str()))
        },
        None => Err(String::from_str("Office file has no stem")),
    }
}

#[derive(Clone, Copy, Debug, PartialEq, Eq, Structural)]
pub enum ClaimKind {
    Office,
    Pdf,
}

impl ClaimKind {
    /// An Office claim needs a convertible document, a PDF claim a PDF.
    pub fn validate(&self, path: &str) -> (r: Result<(), String>)
        ensures
            match self {
                ClaimKind::Office => if convertible_office(path@) {
                    r is Ok
                } else {
                    r matches Err(e) && e@ == "Not a convertible Office document"@
                },
                ClaimKind::Pdf => if pdf_path(path@) {
                    r is Ok
                } else {
                    r matches Err(e) && e@ == "Not a PDF"@
                },
            },
    {
        match self {
            ClaimKind::Office => if is_convertible_office_path(path) {
                Ok(())
            } else {
                Err(String::from_str("Not a convertible Office document"))
            },
            ClaimKind::Pdf => if is_pdf(path) {
                Ok(())
            } else {
                Err(String::from_str("Not a PDF"))
            },
        }
    }

    /// The extension given to a staged file without one.
    pub fn default_ext(&self) -> (r: &'static str)
        ensures
            r@ == match self {
                ClaimKind::Office => "docx"@,
                ClaimKind::Pdf => "pdf"@,
            },
    {
        match self {
            ClaimKind::Office => "docx",
            ClaimKind::Pdf => "pdf",
        }
    }

    /// The foreground-telemetry tag logged before the first claim attempt.
    pub fn first_try_foreground(&self) -> (r: &'static str)
        ensures
            r@ == match self {
                ClaimKind::Office => "office_claim_before_first_try"@,
                ClaimKind::Pdf => "pdf_claim_before_first_try"@,
            },
    {
        match self {
            ClaimKind::Office => "office_claim_before_first_try",
            ClaimKind::Pdf => "pdf_claim_before_first_try",
        }
    }

    /// The foreground-telemetry tag logged on every 25th retry.
    pub fn retry_foreground(&self) -> (r: &'static str)
        ensures
            r@ == match self {
                ClaimKind::Office => "office_claim_retry"@,
                ClaimKind::Pdf => "pdf_claim_retry"@,
            },
    {
        match self {
            ClaimKind::Office => "office_claim_retry",
            ClaimKind::Pdf => "pdf_claim_retry",
        }
    }
}

/// The extension of a claimed file, the kind's default without one.
pub open spec fn claim_ext(path: Seq<char>, kind: ClaimKind) -> Seq<char> {
    match extension(path) {
        Some(e) => e,
        None => match kind {
            ClaimKind::Office => "docx"@,
            ClaimKind::Pdf => "pdf"@,
        },
    }
}

/// `{nanos}_{stem}.{ext}`: the name a claim attempt stages the file under; `nanos` is the
/// clock's nanoseconds plus the attempt number (wrapping).
pub open spec fn staged_name(nanos: u128, attempt: u128, stem: Seq<char>, ext: Seq<char>) -> Seq<char> {
    decimal(wrapped_sum(nanos, attempt) as nat) + "_"@ + stem + "."@ + ext
}

/// `a + b` wrapping past `u128::MAX`.
pub open spec fn wrapped_sum(a: u128, b: u128) -> u128 {
    if a + b > u128::MAX {
        (a + b - u128::MAX - 1) as u128
    } else {
        (a + b) as u128
    }
}

/// Where a claim attempt stages `source_path`.
pub fn staged_claim_path(
    staging_root: &str,
    source_path: &str,
    stem: &str,
    kind: ClaimKind,
    nanos: u128,
    attempt: usize,
) -> (r: String)
    ensures
        r@ == path_join(
            staging_root@,
            staged_name(nanos, attempt as u128, stem@, claim_ext(source_path@, kind)),
        ),
{
    let pv = crate::text::chars_of(source_path);
    let ext = match extension_exec(pv.as_slice()) {
        Some(e) => string_of(e.as_slice()),
        None => String::from_str(kind.default_ext()),
    };
    let n = nanos.wrapping_add(attempt as u128);
    let mut name = u128_to_string(n);
    name.append("_");
    name.append(stem);
    name.append(".");
    name.append(ext.as_str());
    let root = crate::text::chars_of(staging_root);
    let nv = crate::text::chars_of(name.as_str());
    let j = crate::paths::join_chars(root.as_slice(), nv.as_slice());
    string_of(j.as_slice())
}

/// The staging folder of an Office claim: `{out_dir}\.uce_staging` in CCC-temp mode or for
/// files outside FileWisely Incoming, `C:\FileWisely\.uce_staging` for direct children of
/// Incoming.
pub fn office_staging_root_for_incoming(ccc_temp_only: bool, direct_child_of_incoming: bool, out_dir: &str) -> (r: String)
    ensures
        r@ == if !ccc_temp_only && direct_child_of_incoming {
            "C:\\FileWisely\\.uce_staging"@
        } else {
            path_join(out_dir@, ".uce_staging"@)
        },
{
    if !ccc_temp_only && direct_child_of_incoming {
        crate::config::print_config::filewisely_uce_staging_dir()
    } else {
        let o = crate::text::chars_of(out_dir);
        let s = crate::text::chars_of(".uce_staging");
        let j = crate::paths::join_chars(o.as_slice(), s.as_slice());
        string_of(j.as_slice())
    }
}

// ---------------------------------------------------------------------------
// The claim retry loop
// ---------------------------------------------------------------------------

/// What one claim attempt found.
pub enum ClaimOutcome {
    /// The file is not there (yet).
    Missing,
    /// The path is not a plain file.
    NotAFile,
    /// The file was moved into staging.
    Claimed,
    /// The move failed with this error.
    Failed(String),
}

/// What to do after an attempt.
pub enum ClaimStep {
    /// Wait the retry interval and try again.
    Retry,
    /// The file is staged.
    Done,
    /// Give up with this error.
    GiveUp(String),
}

pub struct ClaimLoop {
    pub attempt: usize,
    pub max_attempts: usize,
    pub interval_ms: u64,
    pub last_err: Option<String>,
}

/// `Could not claim {path} after {max} attempts (last: {error})`.
pub open spec fn gave_up_text(path: Seq<char>, max: usize, last: Option<Seq<char>>) -> Seq<char> {
    "Could not claim "@ + path + " after "@ + decimal(max as nat) + " attempts (last: "@ + match last {
        Some(e) => e,
        None => "unknown"@,
    } + ")"@
}

impl ClaimLoop {
    /// CCC temp mode retries every 150 ms up to 34 times; otherwise every 35 ms up to 120.
    pub fn new(ccc_temp_only: bool) -> (r: Self)
        ensures
            r.attempt == 0,
            r.last_err is None,
            ccc_temp_only ==> r.interval_ms == 150 && r.max_attempts == 34,
            !ccc_temp_only ==> r.interval_ms == 35 && r.max_attempts == 120,
    {
        if ccc_temp_only {
            ClaimLoop { attempt: 0, max_attempts: 34, interval_ms: 150, last_err: None }
        } else {
            ClaimLoop { attempt: 0, max_attempts: 120, interval_ms: 35, last_err: None }
        }
    }

    /// Records an attempt on `source_path`: a claim is done; otherwise the failure (if any)
    /// is kept, and after the last attempt the claim gives up.
    pub fn record(&mut self, outcome: ClaimOutcome, source_path: &str) -> (step: ClaimStep)
        requires
            old(self).attempt < old(self).max_attempts,
        ensures
            final(self).max_attempts == old(self).max_attempts,
            final(self).interval_ms == old(self).interval_ms,
            outcome is Claimed ==> step is Done && final(self).attempt == old(self).attempt,
            !(outcome is Claimed) ==> final(self).attempt == old(self).attempt + 1,
            match outcome {
                ClaimOutcome::Failed(e) => final(self).last_err matches Some(x) && x@ == e@,
                _ => crate::ccc_package_sync::opt_view(final(self).last_err)
                    == crate::ccc_package_sync::opt_view(old(self).last_err),
            },
            !(outcome is Claimed) ==> if final(self).attempt >= final(self).max_attempts {
                step matches ClaimStep::GiveUp(m) && m@ == gave_up_text(
                    source_path@,
                    final(self).max_attempts,
                    crate::ccc_package_sync::opt_view(final(self).last_err),
                )
            } else {
                step is Retry
            },
    {
        match outcome {
            ClaimOutcome::Claimed => {
                return ClaimStep::Done;
            },
            ClaimOutcome::Failed(e) => {
                self.last_err = Some(e);
            },
            _ => {},
        }
        self.attempt = self.attempt + 1;
        if self.attempt >= self.max_attempts {
            let mut m = String::from_str("Could not claim ");
            m.append(source_path);
            m.append(" after ");
            let n = u64_to_string(self.max_attempts as u64);
            m.append(n.as_str());
            m.append(" attempts (last: ");
            match &self.last_err {
                Some(e) => m.append(e.as_str()),
                None => m.append("unknown"),
            }
            m.append(")");
            ClaimStep::GiveUp(m)
        } else {
            ClaimStep::Retry
        }
    }
}

// ---------------------------------------------------------------------------
// Conversion
// ---------------------------------------------------------------------------

/// The checks before a staged file is converted, in order.
pub fn convert_precheck(staged_path: &str, staged_is_file: bool) -> (r: Result<(), String>)
    ensures
        !under_uce_staging(staged_path@) ==> (r matches Err(e) && e@
            == "Internal error: convert_staged_office_to_pdf requires a path under .uce_staging"@),
        under_uce_staging(staged_path@) && !staged_is_file ==> (r matches Err(e) && e@
            == "Staged Office file does not exist"@),
        under_uce_staging(staged_path@) && staged_is_file && !convertible_office(staged_path@) ==> (r matches Err(
            e,
        ) && e@ == "Not a convertible Office file"@),
        under_uce_staging(staged_path@) && staged_is_file && convertible_office(staged_path@) ==> r is Ok,
{
    if !path_is_under_uce_staging(staged_path) {
        return Err(
            String::from_str(
                "Internal error: convert_staged_office_to_pdf requires a path under .uce_staging",
            ),
        );
    }
    if !staged_is_file {
        return Err(String::from_str("Staged Office file does not exist"));
    }
    if !is_convertible_office_path(staged_path) {
        return Err(String::from_str("Not a convertible Office file"));
    }
    Ok(())
}

/// The files of one conversion: the working copy LibreOffice reads
/// (`{stem}_ucework.{ext}`), the PDF it writes (`{stem}_ucework.pdf`) and the final PDF
/// (`{stem}.pdf`), all in the output folder.
pub struct ConvertPaths {
    pub work_path: String,
    pub pdf_from_lo: String,
    pub pdf_final: String,
}

pub open spec fn staged_ext(staged: Seq<char>) -> Seq<char> {
    match extension(staged) {
        Some(e) => e,
        None => "docx"@,
    }
}

pub fn convert_paths(staged_path: &str, out_dir: &str, pdf_stem: &str) -> (r: ConvertPaths)
    ensures
        r.work_path@ == path_join(out_dir@, pdf_stem@ + "_ucework"@ + "."@ + staged_ext(staged_path@)),
        r.pdf_from_lo@ == path_join(out_dir@, pdf_stem@ + "_ucework"@ + ".pdf"@),
        r.pdf_final@ == path_join(out_dir@, pdf_stem@ + ".pdf"@),
{
    let pv = crate::text::chars_of(staged_path);
    let ext = match extension_exec(pv.as_slice()) {
        Some(e) => string_of(e.as_slice()),
        None => String::from_str("docx"),
    };
    let o = crate::text::chars_of(out_dir);
    let mut w = String::from_str(pdf_stem);
    w.append("_ucework");
    let mut work = w.clone();
    work.append(".");
    work.append(ext.as_str());
    let mut lo = w.clone();
    lo.append(".pdf");
    let mut fin = String::from_str(pdf_stem);
    fin.append(".pdf");
    let a = crate::text::chars_of(work.as_str());
    let b = crate::text::chars_of(lo.as_str());
    let c = crate::text::chars_of(fin.as_str());
    ConvertPaths {
        work_path: string_of(crate::paths::join_chars(o.as_slice(), a.as_slice()).as_slice()),
        pdf_from_lo: string_of(crate::paths::join_chars(o.as_slice(), b.as_slice()).as_slice()),
        pdf_final: string_of(crate::paths::join_chars(o.as_slice(), c.as_slice()).as_slice()),
    }
}

/// The LibreOffice command-line arguments for converting `input` into `out_dir`.
pub fn libreoffice_args(input: &str, out_dir: &str) -> (r: Vec<String>)
    ensures
        crate::text::views(r@) == seq![
            "--headless"@,
            "--invisible"@,
            "--nologo"@,
            "--nofirststartwizard"@,
            "--convert-to"@,
            "pdf"@,
            input@,
            "--outdir"@,
            out_dir@,
        ],
{
    let mut r: Vec<String> = Vec::new();
    r.push(String::from_str("--headless"));
    r.push(String::from_str("--invisible"));
    r.push(String::from_str("--nologo"));
    r.push(String::from_str("--nofirststartwizard"));
    r.push(String::from_str("--convert-to"));
    r.push(String::from_str("pdf"));
    r.push(String::from_str(input));
    r.push(String::from_str("--outdir"));
    r.push(String::from_str(out_dir));
    assert(crate::text::views(r@) =~= seq![
        "--headless"@,
        "--invisible"@,
        "--nologo"@,
        "--nofirststartwizard"@,
        "--convert-to"@,
        "pdf"@,
        input@,
        "--outdir"@,
        out_dir@,
    ]);
    r
}

/// The error of a failed LibreOffice run: its exit status and trimmed output streams.
pub fn libreoffice_error(status: &str, stderr: &str, stdout: &str) -> (r: String)
    ensures
        r@ == "LibreOffice exit "@ + status@ + ": stderr="@ + trim(stderr@) + " stdout="@ + trim(
            stdout@,
        ),
{
    let mut r = String::from_str("LibreOffice exit ");
    r.append(status);
    r.append(": stderr=");
    let e = crate::text::trim_string(stderr);
    r.append(e.as_str());
    r.append(" stdout=");
    let o = crate::text::trim_string(stdout);
    r.append(o.as_str());
    r
}

/// A Word file is converted again when there is no sibling PDF, when either time cannot
/// be read, or when the Word file is newer.
pub fn needs_conversion(pdf_is_file: bool, word_modified: Option<u128>, pdf_modified: Option<u128>) -> (b: bool)
    ensures
        b == (!pdf_is_file || match (word_modified, pdf_modified) {
            (Some(w), Some(p)) => w > p,
            _ => true,
        }),
{
    if !pdf_is_file {
        return true;
    }
    match (word_modified, pdf_modified) {
        (Some(w), Some(p)) => w > p,
        _ => true,
    }
}

/// Where an Office file's PDF goes and under which stem: a direct child of FileWisely
/// Incoming (whose parent folder is given) keeps its folder and stem (`document` without
/// one); any other file gets `fw_{ms}_{6 hex digits}` in FileWisely Incoming.
pub fn office_output_dir_and_pdf_stem(
    incoming_parent: Option<&str>,
    path: &str,
    now_ms: u64,
    now_nanos: u128,
) -> (r: (String, String))
    ensures
        match incoming_parent {
            Some(parent) => r.0@ == parent@ && r.1@ == match file_stem(path@) {
                Some(s) => s,
                None => "document"@,
            },
            None => r.0@ == crate::config::print_config::FW_OUTPUT_DIR@ && r.1@ == "fw_"@ + decimal(
                now_ms as nat,
            ) + "_"@ + hex_padded((now_nanos % 0xFFFFFF) as nat, 6),
        },
{
    match incoming_parent {
        Some(parent) => {
            let pv = crate::text::chars_of(path);
            let stem = match file_stem_exec(pv.as_slice()) {
                Some(s) => string_of(s.as_slice()),
                None => String::from_str("document"),
            };
            (String::from_str(parent), stem)
        },
        None => {
            let rnd: u64 = (now_nanos % 0xFFFFFF) as u64;
            assert(rnd as nat == (now_nanos % 0xFFFFFF) as nat);
            let mut v: Vec<char> = Vec::new();
            v.push('f');
            v.push('w');
            v.push('_');
            assert(v@ =~= "fw_"@) by {
                reveal_strlit("fw_");
            }
            crate::text::push_decimal(&mut v, now_ms);
            v.push('_');
            let ghost before_hex = v@;
            crate::text::push_hex_padded(&mut v, rnd, 6);
            assert(before_hex =~= "fw_"@ + decimal(now_ms as nat) + "_"@) by {
                reveal_strlit("_");
            }
            assert(v@ =~= "fw_"@ + decimal(now_ms as nat) + "_"@ + hex_padded(
                (now_nanos % 0xFFFFFF) as nat,
                6,
            ));
            (String::from_str(crate::config::print_config::FW_OUTPUT_DIR), string_of(v.as_slice()))
        },
    }
}

/// Where a failed Office file goes in the Failed folder: under its own name when free,
/// else `{stem}_{ms}.{ext}` (`office` without a stem, no extension without one).
pub fn unique_failed_dest(from: &str, failed_dir: &str, name_taken: bool, now_ms: u128) -> (r: String)
    ensures
        !name_taken ==> r@ == path_join(
            failed_dir@,
            match file_name(from@) {
                Some(n) => n,
                None => Seq::empty(),
            },
        ),
        name_taken ==> r@ == path_join(
            failed_dir@,
            match file_stem(from@) {
                Some(s) => s,
                None => "office"@,
            } + "_"@ + decimal(now_ms as nat) + match extension(from@) {
                Some(e) => "."@ + e,
                None => Seq::empty(),
            },
        ),
{
    let fv = crate::text::chars_of(from);
    let dv = crate::text::chars_of(failed_dir);
    if !name_taken {
        let name = match crate::paths::file_name_exec(fv.as_slice()) {
            Some(n) => n,
            None => Vec::new(),
        };
        let j = crate::paths::join_chars(dv.as_slice(), name.as_slice());
        return string_of(j.as_slice());
    }
    let mut n = match file_stem_exec(fv.as_slice()) {
        Some(s) => string_of(s.as_slice()),
        None => String::from_str("office"),
    };
    n.append("_");
    let ts = u128_to_string(now_ms);
    n.append(ts.as_str());
    match extension_exec(fv.as_slice()) {
        Some(e) => {
            n.append(".");
            let es = string_of(e.as_slice());
            n.append(es.as_str());
        },
        None => {},
    }
    let nv = crate::text::chars_of(n.as_str());
    let j = crate::paths::join_chars(dv.as_slice(), nv.as_slice());
    string_of(j.as_slice())
}

/// The places `soffice` is looked for, in order: the `LIBREOFFICE_SOFFICE` value
/// (trimmed), the configured path when not blank, then the two standard install folders;
/// the first that is a file is used.
pub fn soffice_candidates(env_value: Option<&str>, config_override: Option<&str>) -> (r: Vec<String>)
    ensures
        crate::text::views(r@) == (match env_value {
            Some(v) => seq![trim(v@)],
            None => Seq::empty(),
        }) + (match config_override {
            Some(c) => if trim(c@).len() > 0 {
                seq![trim(c@)]
            } else {
                Seq::empty()
            },
            None => Seq::empty(),
        }) + seq![
            "C:\\Program Files\\LibreOffice\\program\\soffice.exe"@,
            "C:\\Program Files (x86)\\LibreOffice\\program\\soffice.exe"@,
        ],
{
    let mut r: Vec<String> = Vec::new();
    match env_value {
        Some(v) => r.push(crate::text::trim_string(v)),
        None => {},
    }
    let ghost a = crate::text::views(r@);
    match config_override {
        Some(c) => {
            let t = crate::text::trim_string(c);
            if !t.as_str().is_empty() {
                r.push(t);
            }
        },
        None => {},
    }
    let ghost b = crate::text::views(r@);
    r.push(String::from_str("C:\\Program Files\\LibreOffice\\program\\soffice.exe"));
    r.push(String::from_str("C:\\Program Files (x86)\\LibreOffice\\program\\soffice.exe"));
    assert(crate::text::views(r@) =~= (match env_value {
        Some(v) => seq![trim(v@)],
        None => Seq::empty(),
    }) + (match config_override {
        Some(c) => if trim(c@).len() > 0 {
            seq![trim(c@)]
        } else {
            Seq::empty()
        },
        None => Seq::empty(),
    }) + seq![
        "C:\\Program Files\\LibreOffice\\program\\soffice.exe"@,
        "C:\\Program Files (x86)\\LibreOffice\\program\\soffice.exe"@,
    ]);
    r
}

/// A `.doc` / `.docx` file (extension compared lower-cased).
pub open spec fn word_document(p: Seq<char>) -> bool {
    match extension(p) {
        Some(e) => unicode_lower(e) == "doc"@ || unicode_lower(e) == "docx"@,
        None => false,
    }
}

/// Whether a folder scan converts a file: a Word document of at least 64 bytes and,
/// when `since` is given, with a readable modification time no earlier than it.
pub open spec fn word_file_due(p: Seq<char>, size: u64, modified_ms: Option<i64>, since: Option<i64>) -> bool {
    word_document(p) && size >= 64 && match since {
        Some(s) => match modified_ms {
            Some(t) => t >= s,
            None => false,
        },
        None => true,
    }
}

pub fn word_file_selected(path: &str, size: u64, modified_ms: Option<i64>, since: Option<i64>) -> (b: bool)
    ensures
        b == word_file_due(path@, size, modified_ms, since),
{
    let pv = crate::text::chars_of(path);
    let is_word = match extension_exec(pv.as_slice()) {
        Some(e) => {
            let es = string_of(e.as_slice());
            let l = crate::text::lower_chars(es.as_str());
            crate::text::eq_str(l.as_slice(), "doc") || crate::text::eq_str(l.as_slice(), "docx")
        },
        None => false,
    };
    if !is_word {
        return false;
    }
    let recent = match since {
        Some(s) => match modified_ms {
            Some(t) => t >= s,
            None => false,
        },
        None => true,
    };
    recent && size >= 64
}


// ---------------------------------------------------------------------------
// One pipeline per Incoming file
// ---------------------------------------------------------------------------

/// The Incoming files that have a pipeline running, by key (the file's canonical path,
/// lower-cased); each key at most once.
pub struct IncomingPipelines {
    pub keys: Vec<String>,
}

impl IncomingPipelines {
    pub open spec fn wf(&self) -> bool {
        forall|i: int, j: int| 0 <= i < j < self.keys@.len() ==> #[trigger] self.keys@[i]@ != #[trigger] self.keys@[j]@
    }

    /// The keys that are held.
    pub open spec fn held(&self) -> Set<Seq<char>> {
        crate::text::views(self.keys@).to_set()
    }

    pub fn new() -> (r: Self)
        ensures
            r.wf(),
            r.held() == Set::<Seq<char>>::empty(),
    {
        let r = IncomingPipelines { keys: Vec::new() };
        assert(r.held() =~= Set::<Seq<char>>::empty());
        r
    }

    /// Takes the pipeline for `key`: `true` and the key held when it was free, `false`
    /// and nothing changed when another pipeline holds it.
    pub fn try_acquire_incoming_pipeline(&mut self, key: &str) -> (b: bool)
        requires
            old(self).wf(),
        ensures
            final(self).wf(),
            b == !old(self).held().contains(key@),
            final(self).held() == old(self).held().insert(key@),
    {
        let ghost kv = crate::text::views(self.keys@);
        if crate::text::vec_contains_str(&self.keys, key) {
            assert(self.held().insert(key@) =~= self.held());
            return false;
        }
        assert(!kv.to_set().contains(key@));
        self.keys.push(String::from_str(key));
        assert(crate::text::views(self.keys@) =~= kv.push(key@));
        assert(self.held() =~= kv.to_set().insert(key@)) by {
            assert forall|x: Seq<char>| self.held().contains(x) <==> kv.to_set().insert(key@).contains(x) by {
                if kv.push(key@).contains(x) && x != key@ {
                    let k = choose|k: int| 0 <= k < kv.push(key@).len() && kv.push(key@)[k] == x;
                    assert(kv[k] == x);
                }
                if kv.contains(x) {
                    let k = choose|k: int| 0 <= k < kv.len() && kv[k] == x;
                    assert(kv.push(key@)[k] == x);
                }
                if x == key@ {
                    assert(kv.push(key@)[kv.len() as int] == x);
                }
            }
        }
        assert forall|i: int, j: int| 0 <= i < j < self.keys@.len() implies #[trigger] self.keys@[i]@
            != #[trigger] self.keys@[j]@ by {
            if j == kv.len() {
                assert(kv[i] == self.keys@[i]@);
            }
        }
        true
    }

    /// Gives the pipeline for `key` back.
    pub fn release(&mut self, key: &str)
        requires
            old(self).wf(),
        ensures
            final(self).wf(),
            final(self).held() == old(self).held().remove(key@),
    {
        let ghost kv = crate::text::views(self.keys@);
        let mut i: usize = 0;
        while i < self.keys.len()
            invariant
                i <= self.keys.len(),
                self.keys@ == old(self).keys@,
                self.wf(),
                kv == crate::text::views(self.keys@),
                forall|k: int| 0 <= k < i ==> #[trigger] kv[k] != key@,
            decreases self.keys.len() - i,
        {
            let c = crate::text::chars_of(self.keys[i].as_str());
            let kc = crate::text::chars_of(key);
            if crate::text::chars_eq(c.as_slice(), kc.as_slice()) {
                let ghost before = self.keys@;
                self.keys.remove(i);
                let ghost nv = crate::text::views(self.keys@);
                assert(nv =~= kv.remove(i as int));
                assert forall|a: int, b: int| 0 <= a < b < self.keys@.len() implies #[trigger] self.keys@[a]@
                    != #[trigger] self.keys@[b]@ by {
                    let a0 = if a < i { a } else { a + 1 };
                    let b0 = if b < i { b } else { b + 1 };
                    assert(self.keys@[a]@ == before[a0]@);
                    assert(self.keys@[b]@ == before[b0]@);
                }
                assert(self.held() =~= kv.to_set().remove(key@)) by {
                    assert forall|x: Seq<char>| self.held().contains(x) <==> kv.to_set().remove(key@).contains(x) by {
                        if nv.contains(x) {
                            let k = choose|k: int| 0 <= k < nv.len() && nv[k] == x;
                            let k0 = if k < i { k } else { k + 1 };
                            assert(kv[k0] == x);
                            assert(x != key@) by {
                                if x == key@ {
                                    assert(before[k0]@ == before[i as int]@);
                                }
                            }
                        }
                        if kv.contains(x) && x != key@ {
                            let k = choose|k: int| 0 <= k < kv.len() && kv[k] == x;
                            assert(k != i);
                            if k < i {
                                assert(nv[k] == x);
                            } else {
                                assert(nv[k - 1] == x);
                            }
                        }
                    }
                }
                return;
            }
            i = i + 1;
        }
        assert(self.held() =~= kv.to_set().remove(key@)) by {
            assert forall|x: Seq<char>| kv.contains(x) implies x != key@ by {
                let k = choose|k: int| 0 <= k < kv.len() && kv[k] == x;
            }
        }
    }

    /// Before a CCC queue claim: the file is taken, or the duplicate-pipeline error when another
    /// pipeline holds the file.
    pub fn claim_for_ccc_queue(&mut self, key: &str) -> (r: Result<(), String>)
        requires
            old(self).wf(),
        ensures
            final(self).wf(),
            final(self).held() == old(self).held().insert(key@),
            old(self).held().contains(key@) ==> (r matches Err(e) && e@ == DUPLICATE_OFFICE_PIPELINE_SKIPPED@),
            !old(self).held().contains(key@) ==> r is Ok,
    {
        if self.try_acquire_incoming_pipeline(key) {
            Ok(())
        } else {
            Err(String::from_str(DUPLICATE_OFFICE_PIPELINE_SKIPPED))
        }
    }

    /// After a CCC queue claim taken with `claim_for_ccc_queue`: the file is given back,
    /// whatever the claim (file I/O done by the caller) gave, and that outcome is returned.
    pub fn finish_ccc_queue_claim(&mut self, key: &str, claimed: Result<String, String>) -> (r: Result<
        String,
        String,
    >)
        requires
            old(self).wf(),
        ensures
            final(self).wf(),
            final(self).held() == old(self).held().remove(key@),
            r == claimed,
    {
        self.release(key);
        claimed
    }
}

/// A CCC queue claim holds its file only while it runs: taking a free key and giving it
/// back leaves the held set as it was.
pub proof fn law_ccc_queue_claim_gives_back(held: Set<Seq<char>>, key: Seq<char>)
    requires
        !held.contains(key),
    ensures
        held.insert(key).remove(key) == held,
{
    assert(held.insert(key).remove(key) =~= held);
}

/// Two pipelines never hold one Incoming file: once a key is taken, taking it again
/// fails until it is released, and after the release it can be taken again.
pub proof fn law_one_pipeline_per_file(held: Set<Seq<char>>, key: Seq<char>)
    ensures
        held.insert(key).contains(key),
        !held.insert(key).remove(key).contains(key),
{
}

} // verus!

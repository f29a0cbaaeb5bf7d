//! Decisions of the folder watcher: what a changed path is (PDF, Office document, scanner
//! image), whether it enters the pipeline and under which watch rule, when a file has
//! stopped growing, which roots still need a watch, and which polled files are new.
//! Watching, renaming, waiting and converting are the caller's.
use vstd::prelude::*;
use crate::pdf_capture::pdf_path;
use crate::pdf_watch_config::{
    best_rule, ignored_lowered, file_name_or_empty, lowered_roots, scan_source_rule, PdfWatchConfig,
};
use crate::services::converter::{convertible_office, under_uce_staging};
use crate::services::local_ro_harvest::{harvest_kind, HarvestKind};
use crate::text::{decimal, starts_with, unicode_lower, views};

verus! {

#[derive(Clone, Copy, Debug, PartialEq, Eq, Structural)]
pub enum WatchKind {
    Pdf,
    Office,
    Image,
}

/// What the watcher takes a path for: `.pdf` (any ASCII case), an Office document the
/// converter takes, or a scanner image (`jpg`, `jpeg`, `png`, `tif`, `tiff`, `bmp`).
pub open spec fn watch_kind(path: Seq<char>) -> Option<WatchKind> {
    if pdf_path(path) {
        Some(WatchKind::Pdf)
    } else if convertible_office(path) {
        Some(WatchKind::Office)
    } else if harvest_kind(path) == Some(HarvestKind::Image) {
        Some(WatchKind::Image)
    } else {
        None
    }
}

pub fn extension_kind(path: &str) -> (r: Option<WatchKind>)
    ensures
        r == watch_kind(path@),
{
    if crate::pdf_capture::is_pdf_path(path) {
        return Some(WatchKind::Pdf);
    }
    if crate::services::converter::is_convertible_office_path(path) {
        return Some(WatchKind::Office);
    }
    match crate::services::local_ro_harvest::is_harvest_ext(path) {
        Some(HarvestKind::Image) => Some(WatchKind::Image),
        _ => None,
    }
}

/// Where a detected path goes.
pub enum WatchOutcome {
    /// CCC-Temp-only mode: the CCC batch takes the file.
    CccTemp,
    /// Rejected for this reason (recorded as a rejected stage).
    Rejected(String),
    /// A general-folder file that matches an ignore pattern (not recorded).
    Ignored,
    /// Goes on: a PDF is renamed if needed and waited on, an Office document is renamed
    /// if needed and converted, an image is converted.
    Proceed,
}

pub enum OutcomeV {
    CccTemp,
    Rejected(Seq<char>),
    Ignored,
    Proceed,
}

pub open spec fn outcome_view(o: WatchOutcome) -> OutcomeV {
    match o {
        WatchOutcome::CccTemp => OutcomeV::CccTemp,
        WatchOutcome::Rejected(r) => OutcomeV::Rejected(r@),
        WatchOutcome::Ignored => OutcomeV::Ignored,
        WatchOutcome::Proceed => OutcomeV::Proceed,
    }
}

/// The decision for a detected path.
pub struct WatchDecision {
    pub outcome: WatchOutcome,
    /// The kind, when the path has one of the watched extensions.
    pub kind: Option<WatchKind>,
    /// The rule of the watch root the path falls under (`unknown` outside all roots).
    pub rule: String,
    /// A PDF seen outside CCC-Temp-only mode and not ignored: recorded as a CCC file sighting.
    pub ccc_seen: bool,
}

/// The least size of a PDF in a general folder.
pub open spec fn general_pdf_min(cfg: PdfWatchConfig) -> u64 {
    let g = {
        let v = match cfg.general_min_file_bytes {
            Some(v) => v,
            None => 512,
        };
        if v < 64 {
            64u64
        } else {
            v
        }
    };
    let p = match cfg.min_pdf_bytes {
        Some(v) => v,
        None => 64,
    };
    if g >= p {
        g
    } else {
        p
    }
}

/// The decision as plain values: outcome, kind, rule, CCC sighting.
pub open spec fn watch_decision(
    path: Seq<char>,
    is_file: bool,
    ccc_temp_only: bool,
    size: Option<u64>,
    roots: Seq<(String, String)>,
    cfg: PdfWatchConfig,
) -> (OutcomeV, Option<WatchKind>, Seq<char>, bool) {
    let kind = watch_kind(path);
    if ccc_temp_only {
        if !is_file {
            (OutcomeV::Rejected("not_a_file_ccc_temp_mode"@), kind, "ccc_temp"@, false)
        } else if under_uce_staging(path) {
            (OutcomeV::Rejected("uce_staging_internal"@), kind, "ccc_temp"@, false)
        } else {
            (OutcomeV::CccTemp, kind, "ccc_temp"@, false)
        }
    } else {
        let rule = best_rule(unicode_lower(path), lowered_roots(roots)).0;
        let general = starts_with(rule, "general_"@);
        match kind {
            None => (OutcomeV::Rejected("no_pdf_office_image_extension"@), kind, rule, false),
            Some(k) => if general && ignored_lowered(
                unicode_lower(file_name_or_empty(path)),
                unicode_lower(path),
            ) {
                (OutcomeV::Ignored, kind, rule, false)
            } else {
                match k {
                    WatchKind::Pdf => if general && size is Some && size->0 < general_pdf_min(cfg) {
                        (
                            OutcomeV::Rejected(
                                "too_small bytes="@ + decimal(size->0 as nat) + " min_b="@ + decimal(
                                    general_pdf_min(cfg) as nat,
                                ),
                            ),
                            kind,
                            rule,
                            true,
                        )
                    } else {
                        (OutcomeV::Proceed, kind, rule, true)
                    },
                    WatchKind::Office => if general {
                        (OutcomeV::Rejected("office_skipped_general_folder"@), kind, rule, false)
                    } else if !is_file {
                        (OutcomeV::Rejected("not_a_file_office_branch"@), kind, rule, false)
                    } else {
                        (OutcomeV::Proceed, kind, rule, false)
                    },
                    WatchKind::Image => if !(scan_source_rule(rule) || rule == "ccc_temp"@ || rule
                        == "ccc_autodiscovered"@) {
                        (OutcomeV::Rejected("image_not_from_scan_root"@), kind, rule, false)
                    } else if !is_file {
                        (OutcomeV::Rejected("not_a_file_image_branch"@), kind, rule, false)
                    } else {
                        (OutcomeV::Proceed, kind, rule, false)
                    },
                }
            },
        }
    }
}

/// What happens to a path the watcher reports: in CCC-Temp-only mode every regular file
/// outside `.uce_staging` goes to the CCC batch; otherwise the path needs a watched
/// extension, is matched to its watch root's rule, general-folder files are screened
/// (ignore patterns, PDFs below the size floor, no Office documents), and images are
/// taken only from scan roots and CCC folders. `size` is the file's size when known.
pub fn watch_path_decision(
    path: &str,
    is_file: bool,
    ccc_temp_only: bool,
    size: Option<u64>,
    roots: &Vec<(String, String)>,
    cfg: &PdfWatchConfig,
) -> (r: WatchDecision)
    ensures
        (outcome_view(r.outcome), r.kind, r.rule@, r.ccc_seen) == watch_decision(
            path@,
            is_file,
            ccc_temp_only,
            size,
            roots@,
            *cfg,
        ),
{
    let kind = extension_kind(path);
    if ccc_temp_only {
        let outcome = if !is_file {
            WatchOutcome::Rejected(String::from_str("not_a_file_ccc_temp_mode"))
        } else if crate::services::converter::path_is_under_uce_staging(path) {
            WatchOutcome::Rejected(String::from_str("uce_staging_internal"))
        } else {
            WatchOutcome::CccTemp
        };
        return WatchDecision { outcome, kind, rule: String::from_str("ccc_temp"), ccc_seen: false };
    }
    let rule = crate::pdf_watch_config::resolve_office_source_rule(path, roots);
    let general = crate::pdf_watch_config::is_general_capture_rule(rule.as_str());
    let k = match kind {
        None => {
            return WatchDecision {
                outcome: WatchOutcome::Rejected(String::from_str("no_pdf_office_image_extension")),
                kind,
                rule,
                ccc_seen: false,
            };
        },
        Some(k) => k,
    };
    if general && crate::pdf_watch_config::should_ignore_general_document_path(path) {
        return WatchDecision { outcome: WatchOutcome::Ignored, kind, rule, ccc_seen: false };
    }
    match k {
        WatchKind::Pdf => {
            let g = crate::pdf_watch_config::effective_general_min_bytes(cfg);
            let p = crate::pdf_watch_config::min_pdf_bytes(cfg);
            let min_b = if g >= p {
                g
            } else {
                p
            };
            match size {
                Some(n) => {
                    if general && n < min_b {
                        let mut reason = String::from_str("too_small bytes=");
                        let a = crate::text::u64_to_string(n);
                        reason.append(a.as_str());
                        reason.append(" min_b=");
                        let b = crate::text::u64_to_string(min_b);
                        reason.append(b.as_str());
                        return WatchDecision {
                            outcome: WatchOutcome::Rejected(reason),
                            kind,
                            rule,
                            ccc_seen: true,
                        };
                    }
                },
                None => {},
            }
            WatchDecision { outcome: WatchOutcome::Proceed, kind, rule, ccc_seen: true }
        },
        WatchKind::Office => {
            let outcome = if general {
                WatchOutcome::Rejected(String::from_str("office_skipped_general_folder"))
            } else if !is_file {
                WatchOutcome::Rejected(String::from_str("not_a_file_office_branch"))
            } else {
                WatchOutcome::Proceed
            };
            WatchDecision { outcome, kind, rule, ccc_seen: false }
        },
        WatchKind::Image => {
            let rv = crate::text::chars_of(rule.as_str());
            let from_scan_root = crate::pdf_watch_config::is_scan_source_rule(rule.as_str())
                || crate::text::eq_str(rv.as_slice(), "ccc_temp") || crate::text::eq_str(
                rv.as_slice(),
                "ccc_autodiscovered",
            );
            let outcome = if !from_scan_root {
                WatchOutcome::Rejected(String::from_str("image_not_from_scan_root"))
            } else if !is_file {
                WatchOutcome::Rejected(String::from_str("not_a_file_image_branch"))
            } else {
                WatchOutcome::Proceed
            };
            WatchDecision { outcome, kind, rule, ccc_seen: false }
        },
    }
}

/// In CCC-Temp-only mode a detected path goes to the CCC batch or is rejected; it never
/// enters the general pipeline, and nothing under `.uce_staging` is taken again.
pub proof fn law_ccc_mode_feeds_only_the_batch(
    path: Seq<char>,
    is_file: bool,
    size: Option<u64>,
    roots: Seq<(String, String)>,
    cfg: PdfWatchConfig,
)
    ensures
        watch_decision(path, is_file, true, size, roots, cfg).0 is CccTemp || watch_decision(
            path,
            is_file,
            true,
            size,
            roots,
            cfg,
        ).0 is Rejected,
        under_uce_staging(path) ==> watch_decision(path, is_file, true, size, roots, cfg).0 is Rejected,
{
}

/// Office documents in general (non-CCC) user folders are never converted.
pub proof fn law_general_folders_never_convert_office(
    path: Seq<char>,
    is_file: bool,
    size: Option<u64>,
    roots: Seq<(String, String)>,
    cfg: PdfWatchConfig,
)
    requires
        watch_kind(path) == Some(WatchKind::Office),
        starts_with(best_rule(unicode_lower(path), lowered_roots(roots)).0, "general_"@),
    ensures
        !(watch_decision(path, is_file, false, size, roots, cfg).0 is Proceed),
{
}

/// In full mode a regular image file is taken when its watch root is a scan root, the CCC
/// temp folder or an auto-discovered CCC folder (and it is not screened out of a general
/// folder): its outcome is `Proceed`. Images from any other root are never taken.
pub proof fn law_images_from_scan_and_ccc_roots_proceed(
    path: Seq<char>,
    size: Option<u64>,
    roots: Seq<(String, String)>,
    cfg: PdfWatchConfig,
)
    requires
        watch_kind(path) == Some(WatchKind::Image),
    ensures
        ({
            let rule = best_rule(unicode_lower(path), lowered_roots(roots)).0;
            let screened = starts_with(rule, "general_"@) && ignored_lowered(
                unicode_lower(file_name_or_empty(path)),
                unicode_lower(path),
            );
            &&& (scan_source_rule(rule) || rule == "ccc_temp"@ || rule == "ccc_autodiscovered"@) && !screened
                ==> watch_decision(path, true, false, size, roots, cfg).0 is Proceed
            &&& !(scan_source_rule(rule) || rule == "ccc_temp"@ || rule == "ccc_autodiscovered"@)
                ==> !(watch_decision(path, true, false, size, roots, cfg).0 is Proceed)
        }),
{
}

// ---------------------------------------------------------------------------
// After the rename
// ---------------------------------------------------------------------------

/// A PDF after the Incoming rename and the stability wait: accepted with its stage
/// detail, or rejected because it vanished or never stopped changing.
pub fn pdf_after_rename(renamed_is_file: bool, stable: bool, rule: &str) -> (r: Result<String, String>)
    ensures
        !renamed_is_file ==> (r matches Err(e) && e@ == "vanished_after_incoming_rename"@),
        renamed_is_file && !stable ==> (r matches Err(e) && e@ == "not_stable_or_locked"@),
        renamed_is_file && stable ==> (r matches Ok(d) && d@ == "kind=pdf matched_rule="@ + rule@),
{
    if !renamed_is_file {
        return Err(String::from_str("vanished_after_incoming_rename"));
    }
    if !stable {
        return Err(String::from_str("not_stable_or_locked"));
    }
    let mut d = String::from_str("kind=pdf matched_rule=");
    d.append(rule);
    Ok(d)
}

/// An Office document after the Incoming rename: accepted, or rejected when it vanished.
pub fn office_after_rename(renamed_is_file: bool, rule: &str) -> (r: Result<String, String>)
    ensures
        !renamed_is_file ==> (r matches Err(e) && e@ == "vanished_after_office_rename"@),
        renamed_is_file ==> (r matches Ok(d) && d@ == "kind=office matched_rule="@ + rule@),
{
    if !renamed_is_file {
        return Err(String::from_str("vanished_after_office_rename"));
    }
    let mut d = String::from_str("kind=office matched_rule=");
    d.append(rule);
    Ok(d)
}

/// The stage detail of an accepted scanner image.
pub fn image_accepted_detail(rule: &str) -> (r: String)
    ensures
        r@ == "kind=image matched_rule="@ + rule@,
{
    let mut d = String::from_str("kind=image matched_rule=");
    d.append(rule);
    d
}

// ---------------------------------------------------------------------------
// Waiting for a file to stop growing
// ---------------------------------------------------------------------------

/// Size readings of a file being written: the last size at least the floor, and how
/// many readings in a row have repeated it.
pub struct SizeStability {
    pub last: Option<u64>,
    pub stable: u32,
}

/// Readings a PDF gets before the wait gives up (one every 200 ms).
pub const PDF_STABLE_POLLS: u32 = 40;
/// Readings an Office document gets before the wait gives up (one every 200 ms).
pub const OFFICE_STABLE_POLLS: u32 = 35;
/// Milliseconds between readings.
pub const STABLE_POLL_MS: u64 = 200;

impl SizeStability {
    pub fn new() -> (r: Self)
        ensures
            r.last is None,
            r.stable == 0,
    {
        SizeStability { last: None, stable: 0 }
    }

    /// One reading: `len` is the size when the file exists and its metadata could be
    /// read. A size at least `min_len` equal to the last one counts one more repeat (the
    /// file is stable at three); a different one starts over; anything else changes
    /// nothing.
    pub fn observe(&mut self, len: Option<u64>, min_len: u64) -> (done: bool)
        ensures
            match len {
                Some(l) => if l >= min_len {
                    if old(self).last == Some(l) {
                        &&& final(self).stable == (if old(self).stable < u32::MAX {
                            old(self).stable + 1
                        } else {
                            old(self).stable as int
                        })
                        &&& final(self).last == Some(l)
                        &&& done == (final(self).stable >= 3)
                    } else {
                        &&& final(self).stable == 0
                        &&& final(self).last == Some(l)
                        &&& !done
                    }
                } else {
                    *final(self) == *old(self) && !done
                },
                None => *final(self) == *old(self) && !done,
            },
    {
        match len {
            Some(l) => {
                if l < min_len {
                    return false;
                }
                if self.last == Some(l) {
                    if self.stable < u32::MAX {
                        self.stable = self.stable + 1;
                    }
                    self.last = Some(l);
                    self.stable >= 3
                } else {
                    self.stable = 0;
                    self.last = Some(l);
                    false
                }
            },
            None => false,
        }
    }
}

// ---------------------------------------------------------------------------
// Watch roots and polling
// ---------------------------------------------------------------------------

/// The debounce of file events: short in CCC-Temp-only mode so files are claimed soon.
pub fn debounce_ms(ccc_temp_only: bool) -> (r: u64)
    ensures
        r == if ccc_temp_only {
            50u64
        } else {
            300u64
        },
{
    if ccc_temp_only {
        50
    } else {
        300
    }
}

/// The watched roots, by key (canonical path, lower-cased), and the 15-second ticks
/// counted so far; every fourth tick the roots are read again.
pub struct WatchRefresh {
    pub ticks: u32,
    pub watched: Vec<String>,
}

impl WatchRefresh {
    /// Watching the roots with these keys.
    pub fn new(keys: Vec<String>) -> (r: Self)
        ensures
            r.ticks == 0,
            views(r.watched@) == views(keys@),
    {
        WatchRefresh { ticks: 0, watched: keys }
    }

    /// One tick: whether the roots are read again now.
    pub fn tick(&mut self) -> (due: bool)
        ensures
            final(self).ticks == (old(self).ticks as int + 1) % 0x1_0000_0000,
            due == (final(self).ticks % 4 == 0),
            views(final(self).watched@) == views(old(self).watched@),
    {
        self.ticks = self.ticks.wrapping_add(1);
        self.ticks % 4 == 0
    }

    /// A root with this key has no watch yet.
    pub fn needs_watch(&self, key: &str) -> (b: bool)
        ensures
            b == !views(self.watched@).contains(key@),
    {
        !crate::text::vec_contains_str(&self.watched, key)
    }

    /// The root with this key is now watched.
    pub fn mark_watched(&mut self, key: &str)
        ensures
            views(final(self).watched@).to_set() == views(old(self).watched@).to_set().insert(key@),
            final(self).ticks == old(self).ticks,
    {
        if !crate::text::vec_contains_str(&self.watched, key) {
            let ghost prev = views(self.watched@);
            self.watched.push(String::from_str(key));
            assert(views(self.watched@) =~= prev.push(key@));
            proof {
                prev.lemma_push_to_set_commute(key@);
            }
        } else {
            assert(views(self.watched@).to_set().contains(key@));
            assert(views(self.watched@).to_set() =~= views(self.watched@).to_set().insert(key@));
        }
    }
}

/// The polled files already seen, by fingerprint; the record is cleared once it holds
/// more than 8000.
pub struct PollSeen {
    pub seen: Vec<String>,
}

/// Fingerprints kept before the record is cleared.
pub const POLL_SEEN_MAX: usize = 8000;

impl PollSeen {
    pub fn new() -> (r: Self)
        ensures
            r.seen@.len() == 0,
    {
        PollSeen { seen: Vec::new() }
    }

    /// Whether this fingerprint is new; it is recorded.
    pub fn first_sighting(&mut self, fp: &str) -> (b: bool)
        ensures
            b == !views(old(self).seen@).contains(fp@),
            b ==> views(final(self).seen@) == views(old(self).seen@).push(fp@),
            !b ==> views(final(self).seen@) == views(old(self).seen@),
    {
        if crate::text::vec_contains_str(&self.seen, fp) {
            return false;
        }
        let ghost prev = views(self.seen@);
        self.seen.push(String::from_str(fp));
        assert(views(self.seen@) =~= prev.push(fp@));
        true
    }

    /// After a round: more than 8000 fingerprints clears the record (returns whether).
    pub fn after_round(&mut self) -> (pruned: bool)
        ensures
            pruned == (old(self).seen@.len() > POLL_SEEN_MAX),
            pruned ==> final(self).seen@.len() == 0,
            !pruned ==> views(final(self).seen@) == views(old(self).seen@),
    {
        if self.seen.len() > POLL_SEEN_MAX {
            self.seen = Vec::new();
            true
        } else {
            false
        }
    }
}

/// A polled file is a candidate when it is outside `.uce_staging` and has a watched
/// extension.
pub fn poll_candidate_file(path: &str) -> (b: bool)
    ensures
        b == (!under_uce_staging(path@) && watch_kind(path@) is Some),
{
    !crate::services::converter::path_is_under_uce_staging(path) && extension_kind(path).is_some()
}

// ---------------------------------------------------------------------------
// The Office pipeline of a watched document
// ---------------------------------------------------------------------------

/// What happens to an Office document that printer-first routing left to conversion.
pub enum OfficePlan {
    /// Not converted, for this reason.
    Skip(String),
    /// A current PDF already exists: hand it on.
    UseExistingPdf,
    /// Convert through staging.
    Convert,
}

/// Conversion is off (`word_to_pdf_disabled`), LibreOffice is missing
/// (`libreoffice_not_found`), the PDF is current, or convert.
pub fn office_pipeline_plan(word_to_pdf_enabled: bool, libreoffice_found: bool, needs_conversion: bool) -> (r:
    OfficePlan)
    ensures
        !word_to_pdf_enabled ==> (r matches OfficePlan::Skip(m) && m@ == "word_to_pdf_disabled"@),
        word_to_pdf_enabled && !libreoffice_found ==> (r matches OfficePlan::Skip(m) && m@
            == "libreoffice_not_found"@),
        word_to_pdf_enabled && libreoffice_found && !needs_conversion ==> r is UseExistingPdf,
        word_to_pdf_enabled && libreoffice_found && needs_conversion ==> r is Convert,
{
    if !word_to_pdf_enabled {
        OfficePlan::Skip(String::from_str("word_to_pdf_disabled"))
    } else if !libreoffice_found {
        OfficePlan::Skip(String::from_str("libreoffice_not_found"))
    } else if !needs_conversion {
        OfficePlan::UseExistingPdf
    } else {
        OfficePlan::Convert
    }
}

/// After a failed conversion: a duplicate pipeline is only skipped; otherwise the
/// document failed, and the user is asked to print it instead when the claim could not
/// take the file, it is still there, and the print prompt is enabled.
pub fn office_convert_failure(err: &str, is_file: bool, prompt_fallback: bool) -> (r: (bool, bool))
    ensures
        r.0 == (err@ == crate::services::converter::DUPLICATE_OFFICE_PIPELINE_SKIPPED@),
        r.1 == (!r.0 && crate::text::has_sub(err@, "Could not claim"@) && is_file && prompt_fallback),
{
    let v = crate::text::chars_of(err);
    let dup = crate::text::eq_str(v.as_slice(), crate::services::converter::DUPLICATE_OFFICE_PIPELINE_SKIPPED);
    if dup {
        return (true, false);
    }
    let prompt = crate::text::contains_str(v.as_slice(), "Could not claim") && is_file && prompt_fallback;
    (false, prompt)
}

} // verus!

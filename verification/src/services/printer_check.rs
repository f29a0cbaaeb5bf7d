//! The virtual PDF printer check and its repair: reading the enumeration's outcome,
//! choosing an installer, and the step-by-step repair decisions.
use vstd::prelude::*;
use crate::text::{ends_with, has_sub, unicode_lower, views};

verus! {

/// Whether a printer named exactly `FileWisely Printer` exists, and the other PDF
/// printers that might be renamed to it.
pub struct PrinterCheckResult {
    pub filewisely_exact: bool,
    pub matching_names: Vec<String>,
}

pub struct RepairPrinterResult {
    pub ok: bool,
    pub message: String,
}

/// The check's outcome from the enumeration run: its exit status, its output, and the
/// output (trimmed) decoded as a `PrinterCheckResult` or the decoder's error.
pub fn check_filewisely_printer(
    success: bool,
    stdout: &str,
    stderr: &str,
    decoded: Result<PrinterCheckResult, String>,
) -> (r: Result<PrinterCheckResult, String>)
    ensures
        !success ==> (r matches Err(e) && e@ == "printer check failed: "@ + stderr@),
        success ==> match decoded {
            Ok(c) => r matches Ok(x) && x.filewisely_exact == c.filewisely_exact && x.matching_names@
                == c.matching_names@,
            Err(d) => r matches Err(e) && e@ == "parse printer JSON: "@ + d@ + ": "@ + stdout@,
        },
{
    if !success {
        let mut e = String::from_str("printer check failed: ");
        e.append(stderr);
        return Err(e);
    }
    match decoded {
        Ok(c) => Ok(c),
        Err(d) => {
            let mut e = String::from_str("parse printer JSON: ");
            e.append(d.as_str());
            e.append(": ");
            e.append(stdout);
            Err(e)
        },
    }
}

/// Uninstallers and Visual C++ redistributables are never run as the printer installer.
pub open spec fn skipped_setup_exe(name: Seq<char>) -> bool {
    let n = unicode_lower(name);
    has_sub(n, "uninst"@) || has_sub(n, "vcredist"@) || has_sub(n, "vcruntime"@)
}

pub fn is_skipped_setup_exe(name: &str) -> (b: bool)
    ensures
        b == skipped_setup_exe(name@),
{
    let n = crate::text::lower_chars(name);
    crate::text::contains_str(n.as_slice(), "uninst") || crate::text::contains_str(
        n.as_slice(),
        "vcredist",
    ) || crate::text::contains_str(n.as_slice(), "vcruntime")
}

/// A file the installer search accepts: an `.exe` (any case) that is not skipped.
pub open spec fn setup_exe_candidate(name: Seq<char>) -> bool {
    ends_with(unicode_lower(name), ".exe"@) && !skipped_setup_exe(name)
}

pub fn is_setup_exe_candidate(name: &str) -> (b: bool)
    ensures
        b == setup_exe_candidate(name@),
{
    let n = crate::text::lower_chars(name);
    crate::text::ends_with_str(n.as_slice(), ".exe") && !is_skipped_setup_exe(name)
}

/// The installer search roots, each folder once (compared lower-cased), first kept.
pub fn dedupe_search_roots(roots: &Vec<String>) -> (r: Vec<String>)
    ensures
        views(r@) == crate::pdf_watch_config::first_by_key(
            crate::pdf_watch_config::lowered_keys(views(roots@)),
        ),
{
    crate::pdf_watch_config::dedupe_dirs(roots)
}

/// What a repair step observed.
pub enum RepairEvent {
    /// The check before anything is installed.
    FirstCheck { present: bool },
    /// The installer search, with the installer found.
    SetupSearched { found: Option<String> },
    /// The elevated installer run.
    InstallerExited { success: bool, code: Option<i32> },
    /// The check after the installer and the rename.
    FinalCheck { present: bool },
}

/// What the repair does next.
pub enum RepairAction {
    /// Search the (deduplicated) roots for an installer.
    SearchSetup,
    /// Show the UAC hint, then run this installer elevated.
    RunInstaller(String),
    /// Wait, rename a PDF queue to `FileWisely Printer`, and check again.
    RenameAndRecheck,
    /// Finish with this result, after rewriting the silent settings when `refresh_ini`.
    Done { refresh_ini: bool, result: RepairPrinterResult },
}

pub open spec fn no_installer_text() -> Seq<char> {
    "No PDF printer installer found. Add Bullzip (or similar) setup.exe under C:\\FileWisely\\pdf-printer, or place it in installer\\pdf-printer before building the MSI so it bundles into the app."@
}

/// The installer's exit code as `{:?}` shows an `Option<i32>`.
pub open spec fn debug_code(code: Option<i32>) -> Seq<char> {
    match code {
        Some(c) => "Some("@ + crate::text::decimal_int(c as int) + ")"@,
        None => "None"@,
    }
}

pub open spec fn installer_failed_text(code: Option<i32>) -> Seq<char> {
    "PDF installer exited with code "@ + debug_code(code)
        + " (declined UAC or silent failure \u{2014} try running UCE as Administrator once, or install Bullzip manually)"@
}

pub open spec fn final_text(ok: bool) -> Seq<char> {
    if ok {
        "Repair completed"@
    } else {
        "Repair attempted; rename printer to FileWisely Printer in Windows Settings or re-run the shop installer"@
    }
}

/// The repair decision after each step.
pub fn repair_filewisely_printer(event: RepairEvent) -> (a: RepairAction)
    ensures
        match event {
            RepairEvent::FirstCheck { present } => if present {
                a matches RepairAction::Done { refresh_ini, result } && refresh_ini && result.ok
                    && result.message@ == "Printer already present"@
            } else {
                a is SearchSetup
            },
            RepairEvent::SetupSearched { found } => match found {
                Some(p) => a matches RepairAction::RunInstaller(q) && q@ == p@,
                None => a matches RepairAction::Done { refresh_ini, result } && !refresh_ini && !result.ok
                    && result.message@ == no_installer_text(),
            },
            RepairEvent::InstallerExited { success, code } => if success {
                a is RenameAndRecheck
            } else {
                a matches RepairAction::Done { refresh_ini, result } && !refresh_ini && !result.ok
                    && result.message@ == installer_failed_text(code)
            },
            RepairEvent::FinalCheck { present } => a matches RepairAction::Done { refresh_ini, result }
                && refresh_ini && result.ok == present && result.message@ == final_text(present),
        },
{
    match event {
        RepairEvent::FirstCheck { present } => {
            if present {
                RepairAction::Done {
                    refresh_ini: true,
                    result: RepairPrinterResult { ok: true, message: String::from_str("Printer already present") },
                }
            } else {
                RepairAction::SearchSetup
            }
        },
        RepairEvent::SetupSearched { found } => match found {
            Some(p) => RepairAction::RunInstaller(p),
            None => RepairAction::Done {
                refresh_ini: false,
                result: RepairPrinterResult {
                    ok: false,
                    message: String::from_str(
                        "No PDF printer installer found. Add Bullzip (or similar) setup.exe under C:\\FileWisely\\pdf-printer, or place it in installer\\pdf-printer before building the MSI so it bundles into the app.",
                    ),
                },
            },
        },
        RepairEvent::InstallerExited { success, code } => {
            if success {
                RepairAction::RenameAndRecheck
            } else {
                let mut m = String::from_str("PDF installer exited with code ");
                match code {
                    Some(c) => {
                        m.append("Some(");
                        let d = crate::text::i64_to_string(c as i64);
                        m.append(d.as_str());
                        m.append(")");
                    },
                    None => {
                        m.append("None");
                    },
                }
                m.append(
                    " (declined UAC or silent failure \u{2014} try running UCE as Administrator once, or install Bullzip manually)",
                );
                RepairAction::Done { refresh_ini: false, result: RepairPrinterResult { ok: false, message: m } }
            }
        },
        RepairEvent::FinalCheck { present } => {
            let m = if present {
                String::from_str("Repair completed")
            } else {
                String::from_str(
                    "Repair attempted; rename printer to FileWisely Printer in Windows Settings or re-run the shop installer",
                )
            };
            RepairAction::Done { refresh_ini: true, result: RepairPrinterResult { ok: present, message: m } }
        },
    }
}

} // verus!

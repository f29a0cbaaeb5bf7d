//! FileWisely print-capture folders (CCC → virtual PDF printer → Incoming → UCE) and the
//! environment switches that change which folder is watched.
use vstd::prelude::*;
use crate::text::{chars_of, eq_ignore_ascii_case, eq_ignore_ascii_case_str, eq_str, parse_u64, parse_u64_spec};

verus! {

/// Shop root for FileWisely folders (Incoming, staging, Processed, Failed).
pub const FILEWISELY_ROOT: &'static str = "C:\\FileWisely";

/// Ingestion folder watched by UCE.
pub const FW_OUTPUT_DIR: &'static str = "C:\\FileWisely\\Incoming";

/// Scanner output folder that is always watched.
pub const FW_SCANS_DIR: &'static str = "C:\\FileWisely\\Scans";

/// Display name shops give their virtual PDF printer.
pub const FW_PRINTER_DISPLAY_NAME: &'static str = "FileWisely Printer";

/// Machine-local seed merged at runtime with the per-user `uce-pdf-watch.json`.
pub fn filewisely_pdf_watch_seed_path() -> (r: String)
    ensures
        r@ == "C:\\FileWisely\\App\\uce-pdf-watch.seed.json"@,
{
    String::from_str("C:\\FileWisely\\App\\uce-pdf-watch.seed.json")
}

/// Office files from Incoming are claimed here before stability checks and conversion.
pub fn filewisely_uce_staging_dir() -> (r: String)
    ensures
        r@ == "C:\\FileWisely\\.uce_staging"@,
{
    String::from_str("C:\\FileWisely\\.uce_staging")
}

/// Successful `fw_*.pdf` uploads are moved here.
pub fn filewisely_processed_dir() -> (r: String)
    ensures
        r@ == "C:\\FileWisely\\Processed"@,
{
    String::from_str("C:\\FileWisely\\Processed")
}

/// Failed uploads get the PDF + `{stem}.error.json` here.
pub fn filewisely_failed_dir() -> (r: String)
    ensures
        r@ == "C:\\FileWisely\\Failed"@,
{
    String::from_str("C:\\FileWisely\\Failed")
}

/// An environment switch is on: `1` or `true` (any ASCII case).
pub open spec fn flag_on(v: Option<Seq<char>>) -> bool {
    match v {
        Some(s) => s == "1"@ || eq_ignore_ascii_case(s, "true"@),
        None => false,
    }
}

pub open spec fn opt_str(v: Option<&str>) -> Option<Seq<char>> {
    match v {
        Some(s) => Some(s@),
        None => None,
    }
}

/// Whether an environment switch's value (`None` when unset) turns it on.
pub fn env_flag_on(value: Option<&str>) -> (b: bool)
    ensures
        b == flag_on(opt_str(value)),
{
    match value {
        Some(s) => {
            let v = chars_of(s);
            eq_str(v.as_slice(), "1") || eq_ignore_ascii_case_str(v.as_slice(), "true")
        },
        None => false,
    }
}

/// `UCE_CCC_TEMP_WATCH_ONLY`: watch only `%LOCALAPPDATA%\Temp\CCC`.
pub fn ccc_temp_watch_only(env_value: Option<&str>) -> (b: bool)
    ensures
        b == flag_on(opt_str(env_value)),
{
    env_flag_on(env_value)
}

/// Resolved CCC temp path from `%LOCALAPPDATA%`.
pub fn ccc_temp_watch_path(local_app_data: Option<&str>) -> (r: String)
    ensures
        r@ == match local_app_data {
            Some(b) => crate::paths::path_join(crate::paths::path_join(b@, "Temp"@), "CCC"@),
            None => "C:\\Users\\jeff\\AppData\\Local\\Temp\\CCC"@,
        },
{
    match local_app_data {
        Some(b) => {
            let bv = chars_of(b);
            let t = chars_of("Temp");
            let c = chars_of("CCC");
            let p1 = crate::paths::join_chars(bv.as_slice(), t.as_slice());
            let p2 = crate::paths::join_chars(p1.as_slice(), c.as_slice());
            crate::text::string_of(p2.as_slice())
        },
        None => String::from_str("C:\\Users\\jeff\\AppData\\Local\\Temp\\CCC"),
    }
}

/// Root folder of the file watcher: the CCC temp folder in CCC-temp-only mode, else Incoming.
pub fn watched_incoming_root(ccc_temp_only: bool, ccc_temp_path: &str) -> (r: String)
    ensures
        r@ == if ccc_temp_only {
            ccc_temp_path@
        } else {
            FW_OUTPUT_DIR@
        },
{
    if ccc_temp_only {
        String::from_str(ccc_temp_path)
    } else {
        String::from_str(FW_OUTPUT_DIR)
    }
}

/// `UCE_RETAIN_STAGING_DEBUG` counts only in CCC-temp-only mode.
pub fn uce_retain_staging_debug(ccc_temp_only: bool, env_value: Option<&str>) -> (b: bool)
    ensures
        b == (ccc_temp_only && flag_on(opt_str(env_value))),
{
    ccc_temp_only && env_flag_on(env_value)
}

/// Retention days from `UCE_PROCESSED_RETENTION_DAYS` / `UCE_FAILED_RETENTION_DAYS`:
/// a positive integer, otherwise no automatic cleanup.
pub open spec fn retention_days(v: Option<Seq<char>>) -> Option<u64> {
    match v {
        Some(s) => match parse_u64_spec(s) {
            Some(d) => if d > 0 {
                Some(d)
            } else {
                None
            },
            None => None,
        },
        None => None,
    }
}

pub fn uce_processed_retention_days(env_value: Option<&str>) -> (r: Option<u64>)
    ensures
        r == retention_days(opt_str(env_value)),
{
    match env_value {
        Some(s) => match parse_u64(s) {
            Some(d) => if d > 0 {
                Some(d)
            } else {
                None
            },
            None => None,
        },
        None => None,
    }
}

pub fn uce_failed_retention_days(env_value: Option<&str>) -> (r: Option<u64>)
    ensures
        r == retention_days(opt_str(env_value)),
{
    uce_processed_retention_days(env_value)
}

} // verus!

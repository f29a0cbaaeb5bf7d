//! The `uce-incoming-file` event handed to the upload pipeline for an accepted PDF.
use vstd::prelude::*;
use crate::services::capture_context::CaptureContext;
use crate::text::{ends_with, starts_with, unicode_lower};

verus! {

pub struct IncomingFileEvent {
    pub path: String,
    pub kind: &'static str,
    /// The file's modification time when it existed at emit time.
    pub modified_unix_ms: Option<i64>,
    pub file_size: Option<u64>,
    /// Where the file came from, sampled when it was accepted.
    pub capture_context: Option<CaptureContext>,
}

/// A base name `fw_….pdf` (compared lower-cased): a file FileWisely named itself.
pub open spec fn fw_incoming_pdf(path: Seq<char>) -> bool {
    match crate::paths::file_name(path) {
        Some(n) => starts_with(unicode_lower(n), "fw_"@) && ends_with(unicode_lower(n), ".pdf"@),
        None => false,
    }
}

pub fn is_fw_incoming_pdf_path(path: &str) -> (b: bool)
    ensures
        b == fw_incoming_pdf(path@),
{
    let pv = crate::text::chars_of(path);
    match crate::paths::file_name_exec(pv.as_slice()) {
        Some(n) => {
            let ns = crate::text::string_of(n.as_slice());
            let l = crate::text::lower_chars(ns.as_str());
            crate::text::starts_with_str(l.as_slice(), "fw_") && crate::text::ends_with_str(
                l.as_slice(),
                ".pdf",
            )
        },
        None => false,
    }
}

/// The event for a PDF: kind `pdf`, the file's time and size when known, and its
/// capture context.
pub fn incoming_pdf_event(
    path: String,
    modified_unix_ms: Option<i64>,
    file_size: Option<u64>,
    capture_context: CaptureContext,
) -> (r: IncomingFileEvent)
    ensures
        r.path@ == path@,
        r.kind@ == "pdf"@,
        r.modified_unix_ms == modified_unix_ms,
        r.file_size == file_size,
        r.capture_context == Some(capture_context),
{
    IncomingFileEvent { path, kind: "pdf", modified_unix_ms, file_size, capture_context: Some(capture_context) }
}

} // verus!

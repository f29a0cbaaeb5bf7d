//! UI-reported runtime state for diagnostics (listener registration, incoming events,
//! skips, popups).
use vstd::prelude::*;

verus! {

pub struct JsRuntimeDiagSnapshot {
    pub js_upload_listener_registered_unix_ms: Option<i64>,
    pub last_js_incoming_pdf_at_unix_ms: Option<i64>,
    pub last_js_incoming_pdf_path: Option<String>,
    pub last_upload_skip_reason: Option<String>,
    pub last_popup_kind: Option<String>,
    pub last_popup_source: Option<String>,
    pub last_popup_message_preview: Option<String>,
    pub last_popup_at_unix_ms: Option<i64>,
}

pub open spec fn ov(o: Option<String>) -> Option<Seq<char>> {
    match o {
        Some(s) => Some(s@),
        None => None,
    }
}

fn clone_opt(o: &Option<String>) -> (r: Option<String>)
    ensures
        ov(r) == ov(*o),
{
    match o {
        Some(s) => Some(s.clone()),
        None => None,
    }
}

impl JsRuntimeDiagSnapshot {
    /// The state as plain values, field by field.
    pub open spec fn fields(&self) -> (
        Option<i64>,
        Option<i64>,
        Option<Seq<char>>,
        Option<Seq<char>>,
        Option<Seq<char>>,
        Option<Seq<char>>,
        Option<Seq<char>>,
        Option<i64>,
    ) {
        (
            self.js_upload_listener_registered_unix_ms,
            self.last_js_incoming_pdf_at_unix_ms,
            ov(self.last_js_incoming_pdf_path),
            ov(self.last_upload_skip_reason),
            ov(self.last_popup_kind),
            ov(self.last_popup_source),
            ov(self.last_popup_message_preview),
            self.last_popup_at_unix_ms,
        )
    }

    pub fn new() -> (r: Self)
        ensures
            r.js_upload_listener_registered_unix_ms is None,
            r.last_js_incoming_pdf_at_unix_ms is None,
            r.last_js_incoming_pdf_path is None,
            r.last_upload_skip_reason is None,
            r.last_popup_kind is None,
            r.last_popup_source is None,
            r.last_popup_message_preview is None,
            r.last_popup_at_unix_ms is None,
    {
        JsRuntimeDiagSnapshot {
            js_upload_listener_registered_unix_ms: None,
            last_js_incoming_pdf_at_unix_ms: None,
            last_js_incoming_pdf_path: None,
            last_upload_skip_reason: None,
            last_popup_kind: None,
            last_popup_source: None,
            last_popup_message_preview: None,
            last_popup_at_unix_ms: None,
        }
    }

    /// A copy of the current state.
    pub fn snapshot(&self) -> (r: Self)
        ensures
            r.js_upload_listener_registered_unix_ms == self.js_upload_listener_registered_unix_ms,
            r.last_js_incoming_pdf_at_unix_ms == self.last_js_incoming_pdf_at_unix_ms,
            ov(r.last_js_incoming_pdf_path) == ov(self.last_js_incoming_pdf_path),
            ov(r.last_upload_skip_reason) == ov(self.last_upload_skip_reason),
            ov(r.last_popup_kind) == ov(self.last_popup_kind),
            ov(r.last_popup_source) == ov(self.last_popup_source),
            ov(r.last_popup_message_preview) == ov(self.last_popup_message_preview),
            r.last_popup_at_unix_ms == self.last_popup_at_unix_ms,
    {
        JsRuntimeDiagSnapshot {
            js_upload_listener_registered_unix_ms: self.js_upload_listener_registered_unix_ms,
            last_js_incoming_pdf_at_unix_ms: self.last_js_incoming_pdf_at_unix_ms,
            last_js_incoming_pdf_path: clone_opt(&self.last_js_incoming_pdf_path),
            last_upload_skip_reason: clone_opt(&self.last_upload_skip_reason),
            last_popup_kind: clone_opt(&self.last_popup_kind),
            last_popup_source: clone_opt(&self.last_popup_source),
            last_popup_message_preview: clone_opt(&self.last_popup_message_preview),
            last_popup_at_unix_ms: self.last_popup_at_unix_ms,
        }
    }

    /// The upload listener registered at `now_ms`.
    pub fn set_upload_listener_ready(&mut self, now_ms: i64)
        ensures
            final(self).fields() == (Some(now_ms), old(self).fields().1, old(self).fields().2,
                old(self).fields().3, old(self).fields().4, old(self).fields().5,
                old(self).fields().6, old(self).fields().7),
    {
        self.js_upload_listener_registered_unix_ms = Some(now_ms);
    }

    /// The UI saw an incoming PDF event for `path` at `now_ms`.
    pub fn record_incoming_pdf_event(&mut self, path: String, now_ms: i64)
        ensures
            final(self).fields() == (old(self).fields().0, Some(now_ms), Some(path@),
                old(self).fields().3, old(self).fields().4, old(self).fields().5,
                old(self).fields().6, old(self).fields().7),
    {
        self.last_js_incoming_pdf_at_unix_ms = Some(now_ms);
        self.last_js_incoming_pdf_path = Some(path);
    }

    /// The UI skipped an upload for `reason`.
    pub fn record_upload_skip(&mut self, reason: String)
        ensures
            final(self).fields() == (old(self).fields().0, old(self).fields().1,
                old(self).fields().2, Some(reason@), old(self).fields().4, old(self).fields().5,
                old(self).fields().6, old(self).fields().7),
    {
        self.last_upload_skip_reason = Some(reason);
    }

    /// The UI showed a popup at `now_ms`.
    pub fn record_popup(
        &mut self,
        kind: String,
        source: String,
        message_preview: Option<String>,
        now_ms: i64,
    )
        ensures
            final(self).fields() == (old(self).fields().0, old(self).fields().1,
                old(self).fields().2, old(self).fields().3, Some(kind@), Some(source@),
                ov(message_preview), Some(now_ms)),
    {
        self.last_popup_kind = Some(kind);
        self.last_popup_source = Some(source);
        self.last_popup_message_preview = message_preview;
        self.last_popup_at_unix_ms = Some(now_ms);
    }
}

} // verus!

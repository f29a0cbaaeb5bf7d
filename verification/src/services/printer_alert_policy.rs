//! Printer MessageBox policy: warning-only by default; a native dialog for a missing printer
//! only when explicitly required and CCC-temp capture is not the active path.
use vstd::prelude::*;

verus! {

/// The switches the policy reads: `UCE_PRINTER_REQUIRED`, CCC-temp-only mode and whether
/// the capture watcher runs.
pub struct PolicyInputs {
    pub env_printer_required: bool,
    pub ccc_temp_watch_only: bool,
    pub watcher_running: bool,
}

/// What the UI reported, and the last native printer alert.
pub struct PrinterAlertState {
    pub js_printer_required: Option<bool>,
    pub last_native_alert: Option<(String, i64)>,
}

pub struct PrinterPolicyDiagnostics {
    pub printer_required_mode: bool,
    pub printer_required_env: bool,
    pub printer_required_js_reported: Option<bool>,
    pub printer_alert_policy: String,
    pub ccc_temp_watch_only: bool,
    pub ccc_capture_suppresses_native_printer_alert: bool,
    pub native_dialog_allowed_for_missing_printer: bool,
    pub suppress_printer_severe_native: bool,
    pub last_native_alert_kind: Option<String>,
    pub last_native_alert_at_unix_ms: Option<i64>,
}

pub open spec fn alert_kind(o: Option<(String, i64)>) -> Option<Seq<char>> {
    match o {
        Some(a) => Some(a.0@),
        None => None,
    }
}

pub open spec fn alert_at(o: Option<(String, i64)>) -> Option<i64> {
    match o {
        Some(a) => Some(a.1),
        None => None,
    }
}

pub open spec fn required_spec(st: PrinterAlertState, inp: PolicyInputs) -> bool {
    inp.env_printer_required || st.js_printer_required == Some(true)
}

pub open spec fn suppressed_by_ccc(inp: PolicyInputs) -> bool {
    inp.ccc_temp_watch_only && inp.watcher_running
}

pub open spec fn dialog_allowed(st: PrinterAlertState, inp: PolicyInputs) -> bool {
    required_spec(st, inp) && !suppressed_by_ccc(inp)
}

pub open spec fn label_spec(st: PrinterAlertState, inp: PolicyInputs) -> Seq<char> {
    if dialog_allowed(st, inp) {
        "native_when_missing_allowed"@
    } else {
        "warning_only"@
    }
}

/// CCC-temp capture with a running watcher suppresses native printer alerts.
pub fn ccc_capture_suppresses_native(inp: &PolicyInputs) -> (b: bool)
    ensures
        b == suppressed_by_ccc(*inp),
{
    inp.ccc_temp_watch_only && inp.watcher_running
}

impl PrinterAlertState {
    pub fn new() -> (r: Self)
        ensures
            r.js_printer_required is None,
            r.last_native_alert is None,
    {
        PrinterAlertState { js_printer_required: None, last_native_alert: None }
    }

    /// The UI reports whether the shop requires the printer.
    pub fn set_js_printer_required(&mut self, v: bool)
        ensures
            final(self).js_printer_required == Some(v),
            final(self).last_native_alert == old(self).last_native_alert,
    {
        self.js_printer_required = Some(v);
    }

    /// Required by the environment or by the UI.
    pub fn printer_required_effective(&self, inp: &PolicyInputs) -> (b: bool)
        ensures
            b == required_spec(*self, *inp),
    {
        inp.env_printer_required || match self.js_printer_required {
            Some(v) => v,
            None => false,
        }
    }

    pub fn native_dialog_allowed_for_missing_printer(&self, inp: &PolicyInputs) -> (b: bool)
        ensures
            b == dialog_allowed(*self, *inp),
    {
        let req = self.printer_required_effective(inp);
        let sup = ccc_capture_suppresses_native(inp);
        req && !sup
    }

    pub fn alert_policy_label(&self, inp: &PolicyInputs) -> (r: String)
        ensures
            r@ == label_spec(*self, *inp),
    {
        if self.native_dialog_allowed_for_missing_printer(inp) {
            String::from_str("native_when_missing_allowed")
        } else {
            String::from_str("warning_only")
        }
    }

    pub fn suppress_printer_severe_native(&self, inp: &PolicyInputs) -> (b: bool)
        ensures
            b == !dialog_allowed(*self, *inp),
    {
        !self.native_dialog_allowed_for_missing_printer(inp)
    }

    /// A native printer alert of `kind` was shown at `now_ms`.
    pub fn record_native_printer_alert(&mut self, kind: &str, now_ms: i64)
        ensures
            alert_kind(final(self).last_native_alert) == Some(kind@),
            alert_at(final(self).last_native_alert) == Some(now_ms),
            final(self).js_printer_required == old(self).js_printer_required,
    {
        self.last_native_alert = Some((String::from_str(kind), now_ms));
    }

    pub fn last_native_alert_kind(&self) -> (r: Option<String>)
        ensures
            crate::services::js_runtime_diag::ov(r) == alert_kind(self.last_native_alert),
    {
        match &self.last_native_alert {
            Some(a) => Some(a.0.clone()),
            None => None,
        }
    }

    pub fn last_native_alert_at_unix_ms(&self) -> (r: Option<i64>)
        ensures
            r == alert_at(self.last_native_alert),
    {
        match &self.last_native_alert {
            Some(a) => Some(a.1),
            None => None,
        }
    }

    /// Everything the policy decides, for diagnostics.
    pub fn policy_snapshot(&self, inp: &PolicyInputs) -> (r: PrinterPolicyDiagnostics)
        ensures
            r.printer_required_mode == required_spec(*self, *inp),
            r.printer_required_env == inp.env_printer_required,
            r.printer_required_js_reported == self.js_printer_required,
            r.printer_alert_policy@ == label_spec(*self, *inp),
            r.ccc_temp_watch_only == inp.ccc_temp_watch_only,
            r.ccc_capture_suppresses_native_printer_alert == suppressed_by_ccc(*inp),
            r.native_dialog_allowed_for_missing_printer == dialog_allowed(*self, *inp),
            r.suppress_printer_severe_native == !dialog_allowed(*self, *inp),
            r.last_native_alert_at_unix_ms == alert_at(self.last_native_alert),
            crate::services::js_runtime_diag::ov(r.last_native_alert_kind) == alert_kind(
                self.last_native_alert,
            ),
    {
        PrinterPolicyDiagnostics {
            printer_required_mode: self.printer_required_effective(inp),
            printer_required_env: inp.env_printer_required,
            printer_required_js_reported: self.js_printer_required,
            printer_alert_policy: self.alert_policy_label(inp),
            ccc_temp_watch_only: inp.ccc_temp_watch_only,
            ccc_capture_suppresses_native_printer_alert: ccc_capture_suppresses_native(inp),
            native_dialog_allowed_for_missing_printer: self.native_dialog_allowed_for_missing_printer(
                inp,
            ),
            suppress_printer_severe_native: self.suppress_printer_severe_native(inp),
            last_native_alert_kind: self.last_native_alert_kind(),
            last_native_alert_at_unix_ms: self.last_native_alert_at_unix_ms(),
        }
    }
}

} // verus!

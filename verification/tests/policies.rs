use uce::services::pipeline_stage_diag::{PipelineStageRings, RING_MAX};
use uce::services::popup_suppression::PopupSuppression;
use uce::services::printer_alert_policy::{ccc_capture_suppresses_native, PolicyInputs, PrinterAlertState};

fn inputs(env: bool, ccc: bool, running: bool) -> PolicyInputs {
    PolicyInputs { env_printer_required: env, ccc_temp_watch_only: ccc, watcher_running: running }
}

#[test]
fn printer_alert_policy() {
    let mut st = PrinterAlertState::new();
    assert!(!st.printer_required_effective(&inputs(false, false, false)));
    assert_eq!(st.alert_policy_label(&inputs(false, false, false)), "warning_only");
    assert_eq!(st.alert_policy_label(&inputs(true, false, true)), "native_when_missing_allowed");
    assert!(ccc_capture_suppresses_native(&inputs(true, true, true)));
    assert_eq!(st.alert_policy_label(&inputs(true, true, true)), "warning_only");
    st.set_js_printer_required(true);
    assert!(st.native_dialog_allowed_for_missing_printer(&inputs(false, true, false)));
    st.record_native_printer_alert("printer_severe", 42);
    assert_eq!(st.last_native_alert_kind().as_deref(), Some("printer_severe"));
    assert_eq!(st.last_native_alert_at_unix_ms(), Some(42));
    let snap = st.policy_snapshot(&inputs(false, false, false));
    assert!(snap.printer_required_mode);
    assert_eq!(snap.printer_required_js_reported, Some(true));
}

#[test]
fn popup_kill_switch() {
    let mut p = PopupSuppression { suppress_all: false };
    p.init_defaults_for_build_profile(true);
    assert!(p.suppress_all_effective(None));
    assert!(!p.suppress_all_effective(Some(" FALSE ")));
    assert!(p.suppress_all_effective(Some("maybe")));
    p.set_from_js(false);
    assert!(p.suppress_all_effective(Some("1")));
    assert!(!p.suppress_all_effective(None));
}

#[test]
fn pipeline_rings_keep_the_newest() {
    let mut r = PipelineStageRings::new();
    for i in 0..(RING_MAX as i64 + 3) {
        r.record_detected(&format!("C:\\f{i}.pdf"), i);
    }
    assert_eq!(r.detected.len(), RING_MAX);
    assert_eq!(r.detected[0].path, "C:\\f3.pdf");
    r.record_rejected("C:\\x.tmp", "ext", 9);
    assert_eq!(r.rejected[0].detail.as_deref(), Some("ext"));
    assert!(r.accepted.is_empty());
}

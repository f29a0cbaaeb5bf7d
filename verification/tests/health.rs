use uce::ccc_package_sync::CccSyncStatus;
use uce::connection_diagnostics::HeartbeatOutcomeRecord;
use uce::device_health::{
    business_id_short, compute_tray_color, format_relative_ms, snapshot, tray_tooltip_at,
    HealthCounters, TrayHealthColor, UploadQueueReport,
};
use uce::tenant_config::TenantConfig;

fn cfg(b: &str) -> TenantConfig {
    TenantConfig {
        business_id: b.to_string(),
        backend_url: "https://x.test".to_string(),
        anon_key: "k".to_string(),
    }
}

fn color_is(c: TrayHealthColor, want: &str) -> bool {
    match c {
        TrayHealthColor::Green => want == "green",
        TrayHealthColor::Yellow => want == "yellow",
        TrayHealthColor::Red => want == "red",
    }
}

#[test]
fn short_business_ids() {
    assert_eq!(business_id_short(" 550e8400-e29b "), "550e8400\u{2026}");
    assert_eq!(business_id_short("  "), "(not set)");
    assert_eq!(business_id_short("abc"), "abc");
}

#[test]
fn tray_colors() {
    assert!(color_is(compute_tray_color(false, false, true, 5, false, true, false), "red"));
    assert!(color_is(compute_tray_color(true, true, true, 5, false, true, false), "yellow"));
    assert!(color_is(compute_tray_color(true, false, false, 0, false, false, false), "yellow"));
    assert!(color_is(compute_tray_color(true, false, true, 5, true, true, false), "red"));
    assert!(color_is(compute_tray_color(true, false, true, 5, false, false, false), "red"));
    assert!(color_is(compute_tray_color(true, false, true, 5, false, true, true), "yellow"));
    assert!(color_is(compute_tray_color(true, false, true, 5, false, true, false), "green"));
}

#[test]
fn relative_times() {
    assert_eq!(format_relative_ms(0, 100), "never");
    assert_eq!(format_relative_ms(1_000, 30_000), "just now");
    assert_eq!(format_relative_ms(1_000, 1_000 + 5 * 60_000), "5m ago");
    assert_eq!(format_relative_ms(1_000, 1_000 + 3 * 3_600_000), "3h ago");
    assert_eq!(format_relative_ms(1_000, 1_000 + 2 * 86_400_000), "2d ago");
}

#[test]
fn snapshot_and_tooltip() {
    let hb = HeartbeatOutcomeRecord {
        last_unix_ms: 1_000,
        success: true,
        category: "HEARTBEAT_OK".to_string(),
        http_status: Some(200),
        message: String::new(),
    };
    let mut counters = HealthCounters::new();
    counters.uce_report_upload_queue_stats(&UploadQueueReport { pending_uploads: 2, last_upload_unix_ms: Some(900) });
    counters.note_ccc_sync_activity(950);
    assert_eq!(counters.last_ccc_sync_unix_ms(), 950);
    let now = 1_000 + 120_000;
    let s = snapshot(&cfg("550e8400-e29b-41d4-a716-446655440000"), &hb, now, &CccSyncStatus::new(), &counters, "0.1.0");
    assert!(color_is(s.tray_state, "green"));
    assert!(s.heartbeat_ok);
    assert!(!s.heartbeat_stale);
    assert_eq!(s.pending_uploads, 2);
    assert_eq!(
        tray_tooltip_at(&s, now),
        "FileWisely UCE \u{2014} Connected\r\nShop 550e8400\u{2026}\r\nHeartbeat: OK (2m ago)\r\nCCC sync: idle (last 2m ago)\r\nPending uploads: 2\r\nv0.1.0"
    );
    let none = snapshot(&cfg(""), &HeartbeatOutcomeRecord::default(), now, &CccSyncStatus::new(), &HealthCounters::new(), "0.1.0");
    assert!(color_is(none.tray_state, "red"));
    assert!(!none.tenant_configured);
}

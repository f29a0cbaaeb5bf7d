use uce::ccc_import_settings::SidekickSettings;
use uce::ccc_package_sync::{
    check_claim_contract, claim_url, delete_folder_target, edge_functions_v1_base,
    first_invalid_ack, mirror_plan, poll_gate, queue_ack, route_item, unsupported_ack,
    CccSyncStatus, ClaimItem, ItemRoute,
};
use uce::ccc_package_sync::{classify_write_error, WriteErrorKind};
use uce::tenant_config::TenantConfig;

const BID: &str = "550e8400-e29b-41d4-a716-446655440000";
const QID: &str = "123e4567-e89b-12d3-a456-426614174000";

fn tenant() -> TenantConfig {
    TenantConfig {
        business_id: format!(" {BID} "),
        backend_url: " https://abc.supabase.co/functions/v1/uce-ingest ".to_string(),
        anon_key: " key123 ".to_string(),
    }
}

fn settings(root: &str) -> SidekickSettings {
    SidekickSettings { ccc_package_root: root.to_string(), first_run_completed: true }
}

fn job(action: Option<&str>) -> ClaimItem {
    ClaimItem {
        queue_id: QID.to_string(),
        action_type: action.map(String::from),
        ro_folder_name: Some("RO1".to_string()),
        sub_folder: Some(" photos ".to_string()),
        bucket: None,
        signed_url: Some("https://x.test/a.jpg".to_string()),
        filename: Some("a.jpg".to_string()),
        target_path_hint: Some("RO1_Smith".to_string()),
        source_table: "business_documents".to_string(),
        source_id: "doc-1".to_string(),
    }
}

fn route_name(r: ItemRoute) -> &'static str {
    match r {
        ItemRoute::DeleteFolder => "delete_folder",
        ItemRoute::Unsupported => "unsupported",
        ItemRoute::Mirror => "mirror",
    }
}

#[test]
fn poll_gate_passes_with_a_complete_setup() {
    let plan = poll_gate(true, &Ok(tenant()), &settings("C:\\CCC Import\\"), &Some("device-0001".to_string()))
        .unwrap_or_else(|e| panic!("{e}"));
    assert_eq!(plan.business_id, BID);
    assert_eq!(plan.token, "key123");
    assert_eq!(plan.device_id, "device-0001");
    assert_eq!(plan.root, "C:\\CCC Import");
    assert_eq!(plan.claim_url, "https://abc.supabase.co/functions/v1/ccc-package-claim-batch");
    assert_eq!(plan.ack_url, "https://abc.supabase.co/functions/v1/ccc-package-ack");
    assert_eq!(check_claim_contract(&plan), Ok(()));
}

#[test]
fn poll_gate_reasons_in_order() {
    let dev = Some("device-0001".to_string());
    let err = |r: Result<_, String>| r.err().unwrap();
    assert_eq!(
        err(poll_gate(false, &Err("x".to_string()), &settings(""), &None)),
        "CCC Import folder not writable \u{2014} check path exists and is not blocked by AV"
    );
    assert_eq!(
        err(poll_gate(true, &Err("unreadable".to_string()), &settings("C:\\r"), &dev)),
        "tenant config: unreadable"
    );
    let mut t = tenant();
    t.business_id = "  ".to_string();
    assert_eq!(err(poll_gate(true, &Ok(t), &settings("C:\\r"), &dev)), "missing business_id in uce-tenant.json");
    let mut t = tenant();
    t.anon_key = String::new();
    assert_eq!(err(poll_gate(true, &Ok(t), &settings("C:\\r"), &dev)), "missing backend_url or anon_key");
    assert_eq!(
        err(poll_gate(true, &Ok(tenant()), &settings("   "), &dev)),
        "ccc_package_root not configured in settings.json"
    );
    let mut t = tenant();
    t.backend_url = "https://abc.test/uce-ingest".to_string();
    assert_eq!(
        err(poll_gate(true, &Ok(t), &settings("C:\\r"), &dev)),
        "backend_url must contain /functions/v1 for claim-batch"
    );
    assert_eq!(
        err(poll_gate(true, &Ok(tenant()), &settings("C:\\r"), &None)),
        "device_id not set \u{2014} open UCE overlay to complete Connect"
    );
}

#[test]
fn claim_contract_rejects_bad_ids() {
    let mut plan = poll_gate(true, &Ok(tenant()), &settings("C:\\r"), &Some("dev".to_string())).ok().unwrap();
    assert_eq!(
        check_claim_contract(&plan),
        Err("contract validation failed: device_id must be 8\u{2013}128 chars (alphanumeric, -, _)".to_string())
    );
    plan.device_id = "device-0001".to_string();
    plan.business_id = String::new();
    assert_eq!(
        check_claim_contract(&plan),
        Err("contract validation failed: business_id is required".to_string())
    );
}

#[test]
fn edge_function_urls() {
    assert_eq!(
        edge_functions_v1_base(" https://a.test/functions/v1/uce-ingest/functions/v1 ").as_deref(),
        Some("https://a.test/functions/v1")
    );
    assert!(edge_functions_v1_base("https://a.test/uce").is_none());
    assert_eq!(claim_url("https://a.test/functions/v1"), "https://a.test/functions/v1/ccc-package-claim-batch");
}

#[test]
fn routing_and_acks() {
    assert_eq!(route_name(route_item(&job(None))), "mirror");
    assert_eq!(route_name(route_item(&job(Some("  ")))), "mirror");
    assert_eq!(route_name(route_item(&job(Some("delete_folder")))), "delete_folder");
    assert_eq!(route_name(route_item(&job(Some("delete_file")))), "unsupported");
    assert_eq!(route_name(route_item(&job(Some("archive_folder")))), "unsupported");
    let a = queue_ack(&job(None), "ok", None, Some("C:\\r\\a.jpg".to_string()));
    assert_eq!(a.queue_id, QID);
    assert_eq!(a.status, "ok");
    assert_eq!(a.written_path.as_deref(), Some("C:\\r\\a.jpg"));
    assert_eq!(a.sub_folder.as_deref(), Some(" photos "));
    assert!(a.action_type.is_none());
    let u = unsupported_ack(&job(Some("archive_folder")));
    assert_eq!(u.status, "error");
    assert_eq!(u.error_message.as_deref(), Some("unsupported action: archive_folder"));
    assert_eq!(u.action_type.as_deref(), Some("archive_folder"));
}

#[test]
fn delete_and_mirror_targets() {
    let d = delete_folder_target("C:\\FileWisely\\CCC Import", &job(Some("delete_folder"))).unwrap();
    assert!(d.starts_with("C:\\FileWisely\\CCC Import"));
    assert!(d.ends_with("RO1_Smith"));
    let mut j = job(Some("delete_folder"));
    j.target_path_hint = Some(" ".to_string());
    assert_eq!(delete_folder_target("C:\\r", &j), Err("missing target_path_hint".to_string()));
    j.target_path_hint = Some("..".to_string());
    assert_eq!(delete_folder_target("C:\\r", &j), Err("invalid target_path_hint".to_string()));
    let (url, dest) = mirror_plan("C:\\r", &job(None)).unwrap();
    assert_eq!(url, "https://x.test/a.jpg");
    assert!(dest.ends_with("a.jpg"));
    let mut j = job(None);
    j.signed_url = None;
    assert_eq!(mirror_plan("C:\\r", &j), Err("missing signed_url".to_string()));
}

#[test]
fn sync_status_through_a_round() {
    let mut st = CccSyncStatus::new();
    assert_eq!(st.tray_ccc_sync_label(), "CCC sync: 0 pending");
    assert_eq!(st.refresh_pause_resume_menu(), (true, false));
    let line = st.on_claim_http_error("503 Service Unavailable", "down");
    assert_eq!(line.as_deref(), Some("CCC claim: claim HTTP 503 Service Unavailable: down"));
    assert!(st.is_ccc_offline());
    assert_eq!(st.tray_ccc_sync_label(), "CCC sync: Offline");
    st.on_claim_ok();
    assert!(!st.is_ccc_offline());
    assert_eq!(st.last_ccc_claim_error(), "");
    st.on_claim_parsed(3, 1_000);
    assert_eq!(st.syncing_count(), 3);
    assert_eq!(st.last_ccc_claim_batch_count(), 3);
    assert_eq!(st.last_ccc_claim_parsed_unix_ms(), 1_000);
    assert_eq!(st.tray_ccc_sync_label(), "CCC sync: 3 syncing\u{2026}");
    let (ack, line) = st.finish_item(&job(None), Err("disk_full".to_string()), 1_100);
    assert_eq!(ack.status, "error");
    assert_eq!(line.as_deref(), Some("CCC write: disk_full"));
    assert_eq!(st.last_ccc_write_error(), "disk_full");
    let (ack, line) = st.finish_item(&job(None), Ok(Some("C:\\r\\a.jpg".to_string())), 1_200);
    assert_eq!(ack.status, "ok");
    assert!(line.is_none());
    assert_eq!(st.last_ccc_write_error(), "");
    assert_eq!(st.last_ccc_write_unix_ms(), 1_200);
    st.record_ack_batch_ok(2, 1_300);
    assert_eq!(st.last_ccc_ack_ok_count(), 2);
    assert_eq!(st.last_ccc_ack_ok_unix_ms(), 1_300);
    st.finish_batch();
    assert_eq!(st.syncing_count(), 0);
    st.set_sync_paused(true);
    assert_eq!(st.tray_ccc_sync_label(), "CCC sync: Paused");
    assert_eq!(st.refresh_pause_resume_menu(), (false, true));
    let line = st.on_claim_parse_error("bad json");
    assert_eq!(line, "CCC claim: bad json");
    assert_eq!(st.last_ccc_claim_batch_count(), 0);
}

#[test]
fn ack_rows_are_checked_before_sending() {
    let good = queue_ack(&job(None), "ok", None, None);
    let mut bad_status = queue_ack(&job(None), "ok", None, None);
    bad_status.status = "done".to_string();
    assert!(first_invalid_ack(&vec![good]).is_none());
    let good = queue_ack(&job(None), "error", Some("x".to_string()), None);
    let (i, e) = first_invalid_ack(&vec![good, bad_status]).unwrap();
    assert_eq!(i, 1);
    assert_eq!(e, "contract validation failed: status must be ok or error (got \"done\")");
}

#[test]
fn write_errors() {
    assert_eq!(classify_write_error(WriteErrorKind::PermissionDenied, "x"), "permission_denied");
    assert_eq!(classify_write_error(WriteErrorKind::StorageFull, "x"), "disk_full");
    assert_eq!(classify_write_error(WriteErrorKind::Other, "broken pipe"), "broken pipe");
}

#[test]
fn failed_ack_batch_after_a_claim() {
    let mut st = CccSyncStatus::new();
    st.set_sync_paused(true);
    st.set_ccc_import_writable(false);
    let parsed: Result<Vec<ClaimItem>, String> = Ok(vec![job(None), job(None)]);
    assert!(st.on_claim_response(&parsed, 500).is_none());
    assert_eq!(st.last_ccc_claim_batch_count(), 2);
    assert_eq!(st.syncing_count(), 2);
    let _ = st.finish_item(&job(None), Ok(None), 600);
    let line = st.close_batch(2, &Err("network: timed out".to_string()), 700);
    assert_eq!(line.as_deref(), Some("CCC ack: network: timed out"));
    assert_eq!(st.last_ccc_ack_fail_count(), 1);
    assert_eq!(st.last_ccc_ack_ok_count(), 0);
    assert_eq!(st.last_ccc_ack_error(), "network: timed out");
    assert_eq!(st.syncing_count(), 0);
    assert!(st.is_sync_paused());
    assert!(!st.ccc_import_writable());
}

#[test]
fn claim_response_counts_follow_the_decode() {
    let mut st = CccSyncStatus::new();
    st.on_claim_parsed(4, 10);
    let bad: Result<Vec<ClaimItem>, String> = Err("claim JSON invalid: EOF".to_string());
    let line = st.on_claim_response(&bad, 20);
    assert_eq!(line.as_deref(), Some("CCC claim: claim JSON invalid: EOF"));
    assert_eq!(st.last_ccc_claim_batch_count(), 0);
    let empty: Result<Vec<ClaimItem>, String> = Ok(Vec::new());
    assert!(st.on_claim_response(&empty, 30).is_none());
    assert_eq!(st.last_ccc_claim_batch_count(), 0);
    assert_eq!(st.last_ccc_claim_parsed_unix_ms(), 30);
    assert_eq!(st.syncing_count(), 0);
    assert_eq!(st.last_ccc_claim_error(), "");
    let ok_line = st.close_batch(0, &Err("unused".to_string()), 40);
    assert!(ok_line.is_none());
    assert_eq!(st.last_ccc_ack_fail_count(), 0);
}

#[test]
fn claim_error_is_cut_to_500_chars() {
    let mut st = CccSyncStatus::new();
    let long = "x".repeat(700);
    let _ = st.note_claim_error(&long);
    assert_eq!(st.last_ccc_claim_error().chars().count(), 500);
    st.record_ack_ok(5);
    assert_eq!(st.last_ccc_claim_error().chars().count(), 500);
}

use uce::ccc_import_settings::{
    effective_ccc_package_root, first_run_initial_folder, first_run_pending, normalize_root_path,
    ps_escape_single_quoted, settings_with_root, SidekickSettings, DEFAULT_CCC_PACKAGE_ROOT,
};
use uce::config::print_config::{
    ccc_temp_watch_only, ccc_temp_watch_path, env_flag_on, filewisely_failed_dir,
    filewisely_processed_dir, filewisely_uce_staging_dir, uce_failed_retention_days,
    uce_processed_retention_days, uce_retain_staging_debug, watched_incoming_root, FW_OUTPUT_DIR,
};
use uce::services::capture_pipeline_status::PipelineStatus;
use uce::tenant_config::TenantConfig;

#[test]
fn environment_switches() {
    assert!(env_flag_on(Some("1")));
    assert!(env_flag_on(Some("TRUE")));
    assert!(!env_flag_on(Some("yes")));
    assert!(!env_flag_on(None));
    assert!(ccc_temp_watch_only(Some("true")));
    assert!(uce_retain_staging_debug(true, Some("1")));
    assert!(!uce_retain_staging_debug(false, Some("1")));
    assert_eq!(uce_processed_retention_days(Some("14")), Some(14));
    assert_eq!(uce_processed_retention_days(Some("0")), None);
    assert_eq!(uce_processed_retention_days(Some("+7")), Some(7));
    assert_eq!(uce_failed_retention_days(Some("x")), None);
    assert_eq!(uce_failed_retention_days(None), None);
}

#[test]
fn folders() {
    assert_eq!(ccc_temp_watch_path(Some("C:\\Users\\a\\AppData\\Local")), "C:\\Users\\a\\AppData\\Local\\Temp\\CCC");
    assert_eq!(watched_incoming_root(true, "C:\\T\\CCC"), "C:\\T\\CCC");
    assert_eq!(watched_incoming_root(false, "C:\\T\\CCC"), FW_OUTPUT_DIR);
    assert_eq!(filewisely_uce_staging_dir(), "C:\\FileWisely\\.uce_staging");
    assert_eq!(filewisely_processed_dir(), "C:\\FileWisely\\Processed");
    assert_eq!(filewisely_failed_dir(), "C:\\FileWisely\\Failed");
}

#[test]
fn tenant_identity() {
    let c = TenantConfig { business_id: " b1 ".to_string(), backend_url: "u".to_string(), anon_key: "k".to_string() };
    assert!(c.is_configured());
    assert_eq!(c.business_id_value().as_deref(), Some("b1"));
    assert_eq!(c.with_business_id("  ").err().as_deref(), Some("business_id is empty"));
    let d = c.with_connect(" b2 ", Some(" https://n "), Some(" ")).unwrap();
    assert_eq!(d.business_id, "b2");
    assert_eq!(d.backend_url, "https://n");
    assert_eq!(d.anon_key, "k");
    let empty = TenantConfig { business_id: String::new(), backend_url: "u".to_string(), anon_key: "k".to_string() };
    assert!(!empty.is_configured());
    assert_eq!(empty.business_id_value(), None);
}

#[test]
fn ccc_import_root() {
    assert_eq!(normalize_root_path("  D:\\CCC Import\\\\ "), "D:\\CCC Import");
    let unset = SidekickSettings { ccc_package_root: " ".to_string(), first_run_completed: true };
    assert_eq!(effective_ccc_package_root(&unset), None);
    assert!(first_run_pending(&unset));
    assert_eq!(first_run_initial_folder(&unset), DEFAULT_CCC_PACKAGE_ROOT);
    let s = settings_with_root(&unset, " E:\\Imports/ ").unwrap();
    assert_eq!(s.ccc_package_root, "E:\\Imports");
    assert!(s.first_run_completed);
    assert!(!first_run_pending(&s));
    assert_eq!(effective_ccc_package_root(&s).as_deref(), Some("E:\\Imports"));
    assert_eq!(settings_with_root(&unset, " \\ ").err().as_deref(), Some("CCC Import folder path is empty"));
    assert_eq!(ps_escape_single_quoted("it's"), "it''s");
}

#[test]
fn watcher_status() {
    let mut p = PipelineStatus::new();
    assert_eq!(p.status_label(), "not_initialized");
    p.set_failed("no access".to_string());
    assert_eq!(p.status_label(), "failed");
    assert_eq!(p.failure_reason().as_deref(), Some("no access"));
    assert!(!p.is_watcher_running());
    p.set_running();
    assert_eq!(p.status_label(), "running");
    assert!(p.is_watcher_running());
    assert_eq!(p.failure_reason(), None);
}

pub mod text;
pub mod json;
pub mod claim_parse;
pub mod api_contracts;
pub mod paths;
pub mod ccc_package_sync;
pub mod tenant_config;
pub mod ccc_import_settings;
pub mod types;
pub mod context_rules;
pub mod context_tracker;
pub mod config;
pub mod services;
pub mod ack_spool;
pub mod upload_spool;
pub mod pdf_watch_config;
pub mod connection_diagnostics;
pub mod device_health;
pub mod diagnostic_report;
pub mod watch_policy_sync;
pub mod health_watchdog;
pub mod context_training;
pub mod pdf_capture;
pub mod timestamps;
pub mod ro_status;
pub mod local_agent_probe;
pub mod device_id;

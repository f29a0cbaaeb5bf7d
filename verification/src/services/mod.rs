pub mod capture_pipeline_status;
pub mod printer_alert_policy;
pub mod popup_suppression;
pub mod js_runtime_diag;
pub mod pipeline_stage_diag;
pub mod ccc_batch;
pub mod converter;
pub mod flight_recorder;
pub mod foreground_telemetry;
pub mod capture_context;
pub mod ccc_capture_diag;
pub mod incoming_unique_rename;
pub mod incoming_emit;
pub mod office_printer_route;
pub mod office_intercept;
pub mod source_autodiscovery;
pub mod local_ro_harvest;
pub mod printer_bullzip_ini;
pub mod startup_shortcut;
pub mod printer_check;
pub mod ccc_cr_word_autoclose;
pub mod ccc_autodiscovery;
pub mod popup_log;
pub mod print_watcher;
pub mod processed_retention;
pub mod file_normalizer;
pub mod native_message_box;

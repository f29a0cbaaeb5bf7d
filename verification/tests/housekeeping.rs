use uce::services::source_autodiscovery::is_recent_mtime;
use uce::services::office_intercept::WinwordPrompt;
use uce::device_id::{load_device_id, save_device_id, uce_get_device_id};
use uce::services::file_normalizer::normalize_into_incoming;
use uce::services::native_message_box::{summarize_native_dialog, suppress_all_native};
use uce::services::processed_retention::{retention_plan, retention_secs, sweep_entry, SweepStep};

#[test]
fn retention_folders_and_files() {
    assert_eq!(retention_plan(None, None), None);
    assert_eq!(retention_plan(Some(90), None), Some((Some(90), Some(90))));
    assert_eq!(retention_plan(Some(90), Some(7)), Some((Some(90), Some(7))));
    assert_eq!(retention_plan(None, Some(7)), Some((None, Some(7))));
    assert_eq!(retention_secs(1), 86_400);
    assert_eq!(retention_secs(u64::MAX), u64::MAX);
    let day = retention_secs(1);
    assert_eq!(sweep_entry(false, true, Some(0), 0, day), SweepStep::Skip);
    assert_eq!(sweep_entry(true, false, Some(0), 0, day), SweepStep::Error);
    assert_eq!(sweep_entry(true, true, None, 0, day), SweepStep::Skip);
    assert_eq!(sweep_entry(true, true, Some(1_000), 1_000 + 86_399_999, day), SweepStep::Keep);
    assert_eq!(sweep_entry(true, true, Some(1_000), 1_000 + 86_400_000, day), SweepStep::Remove);
    assert_eq!(sweep_entry(true, true, Some(5_000), 1_000, day), SweepStep::Keep);
    assert_eq!(sweep_entry(true, true, Some(0), u64::MAX, u64::MAX), SweepStep::Keep);
}

#[test]
fn device_ids() {
    assert_eq!(load_device_id("  dev-123 \n").as_deref(), Some("dev-123"));
    assert_eq!(load_device_id(" \n "), None);
    assert_eq!(save_device_id(" dev-9 "), Ok("dev-9".to_string()));
    assert_eq!(save_device_id("   "), Err("device_id is empty".to_string()));
    assert_eq!(uce_get_device_id(Some("d".to_string())), Ok("d".to_string()));
    assert_eq!(uce_get_device_id(None), Err("device_id not set".to_string()));
}

#[test]
fn incoming_copies_and_native_boxes() {
    assert_eq!(
        normalize_into_incoming("D:\\Saves\\estimate.pdf", true),
        Ok("C:\\FileWisely\\Incoming\\estimate.pdf".to_string())
    );
    assert_eq!(normalize_into_incoming("D:\\Saves\\estimate.pdf", false), Err("File not found".to_string()));
    assert_eq!(normalize_into_incoming("D:\\", true), Err("Invalid file name".to_string()));
    let long = "x".repeat(500);
    let s = summarize_native_dialog("Printer", &long);
    assert_eq!(s, format!("Printer | {}", "x".repeat(400)));
    assert!(suppress_all_native(None, true));
    assert!(!suppress_all_native(None, false));
    assert!(!suppress_all_native(Some("TRUE"), true));
    assert!(!suppress_all_native(Some("1"), true));
    assert!(suppress_all_native(Some("0"), true));
}

#[test]
fn winword_send_prompt_cooldown() {
    let mut p = WinwordPrompt::new();
    let doc = Some("C:\\Docs\\Est.DOCX".to_string());
    assert_eq!(p.winword_send_prompt("explorer.exe", doc.clone(), true, 0), None);
    assert_eq!(p.winword_send_prompt("winword.exe", doc.clone(), false, 0), None);
    assert_eq!(p.winword_send_prompt("winword.exe", None, true, 0), None);
    assert_eq!(p.winword_send_prompt("winword.exe", doc.clone(), true, 1_000).as_deref(), Some("C:\\Docs\\Est.DOCX"));
    assert_eq!(p.last, Some(("c:\\docs\\est.docx".to_string(), 1_000)));
    assert_eq!(p.winword_send_prompt("winword.exe", doc.clone(), true, 90_999), None);
    assert_eq!(p.winword_send_prompt("winword.exe", doc.clone(), true, 91_000).as_deref(), Some("C:\\Docs\\Est.DOCX"));
    // Another document is offered right away.
    assert!(p.should_emit_winword_prompt("c:\\docs\\other.docx", 91_001));
    assert!(p.should_emit_winword_prompt("c:\\docs\\est.docx", 91_002));
}

#[test]
fn recent_modification_times() {
    assert!(is_recent_mtime(1_000, 2_000, 1_000));
    assert!(!is_recent_mtime(999, 2_000, 1_000));
    assert!(!is_recent_mtime(3_000, 2_000, 1_000));
    assert!(is_recent_mtime(i64::MIN, i64::MAX, u64::MAX));
}

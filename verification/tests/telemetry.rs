use uce::services::flight_recorder::{
    collect_recent_for_word_launch, extension_allowed, is_winword_name, push_file_event,
    FileEventRecord, WinwordTracker, RING_CAP,
};
use uce::services::foreground_telemetry::{
    ccc_printing_title_active, classify_exe, exe_token, foreground_snapshot_from, truncate_title,
};

fn ev(t: u128) -> FileEventRecord {
    FileEventRecord {
        time: t,
        event_type: "create".to_string(),
        full_path: format!("C:\\x\\{t}.docx"),
        extension: "docx".to_string(),
        size: Some(10),
    }
}

#[test]
fn executables_and_titles() {
    assert_eq!(classify_exe("c:\\office\\winword.exe"), "WINWORD");
    assert_eq!(classify_exe("explorer.exe"), "EXPLORER");
    assert_eq!(classify_exe("soffice.bin"), "SOFFICE");
    assert_eq!(classify_exe("soffice.exe"), "SOFFICE");
    assert_eq!(classify_exe("libreoffice.exe"), "SOFFICE");
    assert_eq!(classify_exe("chrome.exe"), "OTHER");
    assert_eq!(exe_token("C:\\Program Files\\Office\\WINWORD.EXE"), "WINWORD.EXE");
    assert_eq!(truncate_title("  abcdef  ", 3), "abc\u{2026}");
    assert_eq!(truncate_title(" abc ", 3), "abc");
    let s = foreground_snapshot_from("C:\\CCC\\CCCONE.exe", 7, "CCC ONE", "Printing estimate");
    assert_eq!(s.exe_token, "CCCONE.exe");
    assert!(ccc_printing_title_active(Some(&s)));
    let t = foreground_snapshot_from("C:\\CCC\\CCCONE.exe", 7, "CCC ONE", "Print preview");
    assert!(ccc_printing_title_active(Some(&t)));
    let u = foreground_snapshot_from("C:\\x\\notepad.exe", 7, "Notepad", "Print preview");
    assert!(!ccc_printing_title_active(Some(&u)));
    assert!(!ccc_printing_title_active(None));
}

#[test]
fn recorder_extensions() {
    assert_eq!(extension_allowed("C:\\a\\B.DOCX").as_deref(), Some("docx"));
    assert_eq!(extension_allowed("C:\\a\\~WRL0001.tmp").as_deref(), Some("tmp"));
    assert_eq!(extension_allowed("C:\\a\\b.xlsx"), None);
    assert!(is_winword_name("WINWORD.EXE"));
    assert!(!is_winword_name("excel.exe"));
}

#[test]
fn recorder_ring_is_capped() {
    let mut ring = Vec::new();
    for t in 0..(RING_CAP as u128 + 5) {
        push_file_event(&mut ring, ev(t));
    }
    assert_eq!(ring.len(), RING_CAP);
    assert_eq!(ring[0].time, 5);
}

#[test]
fn events_shown_with_a_word_launch() {
    let mut ring = Vec::new();
    for t in [100u128, 5_000, 6_000, 7_999, 8_000, 9_000] {
        push_file_event(&mut ring, ev(t));
    }
    let r = collect_recent_for_word_launch(&ring, 8_000);
    let times: Vec<u128> = r.iter().map(|e| e.time).collect();
    assert_eq!(times, vec![5_000, 6_000, 7_999, 8_000]);
}

#[test]
fn word_processes_and_focus() {
    let mut w = WinwordTracker::new();
    assert_eq!(w.new_launches(&vec![10, 11, 10]), vec![10, 11]);
    assert!(w.new_launches(&vec![10, 11]).is_empty());
    assert_eq!(w.new_launches(&vec![11, 12]), vec![12]);
    assert_eq!(w.new_launches(&vec![10]), vec![10]);
    assert!(w.focus_changed(10, "Doc1 - Word"));
    assert!(!w.focus_changed(10, "Doc1 - Word"));
    assert!(w.focus_changed(10, "Doc2 - Word"));
}

use uce::json::{contains_key, find_key, insert_if_absent, insert_key, remove_key, scalar_string, sorted_unique, Json};
use uce::pdf_watch_config::{
    best_matching_rule, dedupe_dirs, general_user_document_candidates, general_user_document_dirs,
    infer_office_root_label, is_general_capture_rule, is_scan_source_rule,
    resolve_office_source_rule, scan_destination_candidates, should_ignore_general_document_path,
};

fn pairs(v: &[(&str, &str)]) -> Vec<(String, String)> {
    v.iter().map(|(a, b)| (a.to_string(), b.to_string())).collect()
}

#[test]
fn rule_kinds() {
    assert!(is_general_capture_rule("general_downloads"));
    assert!(!is_general_capture_rule("ccc_path"));
    assert!(is_scan_source_rule("scan_vendor"));
    assert!(is_scan_source_rule("source_autodiscovered"));
    assert!(!is_scan_source_rule("general_desktop"));
}

#[test]
fn general_documents_that_are_ignored() {
    assert!(should_ignore_general_document_path("C:\\Users\\a\\Documents\\~$Report.docx"));
    assert!(should_ignore_general_document_path("C:\\Users\\a\\Downloads\\x.pdf.crdownload"));
    assert!(should_ignore_general_document_path("C:\\Users\\a\\Desktop\\Thumbs.db"));
    assert!(should_ignore_general_document_path("C:\\Users\\a\\AppData\\Local\\Temp\\x.pdf"));
    assert!(!should_ignore_general_document_path("C:\\Users\\a\\AppData\\Local\\Temp\\CCC\\x.pdf"));
    assert!(!should_ignore_general_document_path("C:\\Users\\a\\Documents\\Report.docx"));
}

#[test]
fn office_root_labels() {
    assert_eq!(infer_office_root_label("C:\\Users\\a\\Downloads"), "downloads");
    assert_eq!(infer_office_root_label("C:\\Users\\a\\OneDrive\\Documents"), "onedrive");
    assert_eq!(infer_office_root_label("C:\\CCC\\WORKFILES"), "ccc_workfiles");
    assert_eq!(infer_office_root_label("C:\\FileWisely\\Scans"), "scan_filewisely");
    assert_eq!(infer_office_root_label("D:\\Epson"), "scan_vendor");
    assert_eq!(infer_office_root_label("D:\\misc"), "pdf_watch_candidate");
}

#[test]
fn longest_root_wins() {
    let roots = pairs(&[("C:\\Users\\a\\", "general_home"), ("C:\\Users\\a\\Documents\\", "general_documents")]);
    assert_eq!(resolve_office_source_rule("C:\\USERS\\A\\Documents\\x.docx", &roots), "general_documents");
    assert_eq!(resolve_office_source_rule("C:\\Users\\a\\Desktop\\x.docx", &roots), "general_home");
    assert_eq!(resolve_office_source_rule("D:\\x.docx", &roots), "unknown");
    let lowered = pairs(&[("c:\\a", "r1"), ("c:\\a", "r2")]);
    assert_eq!(best_matching_rule("c:\\a\\b", &lowered), "r1");
}

#[test]
fn candidate_folders() {
    let g = general_user_document_candidates("C:\\Users\\a");
    assert_eq!(g[0], ("C:\\Users\\a\\Downloads".to_string(), "general_downloads".to_string()));
    assert_eq!(g[4], ("C:\\Users\\a\\OneDrive\\Documents".to_string(), "general_onedrive_documents".to_string()));
    assert_eq!(general_user_document_dirs(&g).len(), 5);
    let s = scan_destination_candidates(Some("C:\\Users\\a"));
    assert_eq!(s[0], ("C:\\FileWisely\\Scans".to_string(), "scan_filewisely".to_string()));
    assert_eq!(s[1], ("C:\\Users\\a\\Pictures\\Scanned Documents".to_string(), "scan_pictures".to_string()));
    assert_eq!(s.len(), 15);
    assert_eq!(scan_destination_candidates(None).len(), 1);
}

#[test]
fn folders_deduplicate_ignoring_case() {
    let d = vec!["C:\\A".to_string(), "D:\\B".to_string(), "c:\\a".to_string()];
    assert_eq!(dedupe_dirs(&d), vec!["C:\\A".to_string(), "D:\\B".to_string()]);
}

#[test]
fn json_object_operations() {
    let mut m: Vec<(String, Json)> = Vec::new();
    insert_key(&mut m, "b".to_string(), Json::Bool(true));
    insert_key(&mut m, "a".to_string(), Json::Str("x".to_string()));
    insert_key(&mut m, "c".to_string(), Json::Null);
    let keys: Vec<&str> = m.iter().map(|(k, _)| k.as_str()).collect();
    assert_eq!(keys, vec!["a", "b", "c"]);
    insert_key(&mut m, "a".to_string(), Json::Number("7".to_string()));
    assert_eq!(find_key(&m, "a"), Some(0));
    assert_eq!(scalar_string(&m[0].1).as_deref(), Some("7"));
    insert_if_absent(&mut m, "a".to_string(), Json::Null);
    assert_eq!(scalar_string(&m[0].1).as_deref(), Some("7"));
    assert!(remove_key(&mut m, "b").is_some());
    assert!(!contains_key(&m, "b"));
    assert!(remove_key(&mut m, "b").is_none());
    assert_eq!(scalar_string(&Json::Bool(false)).as_deref(), Some("false"));
    assert_eq!(scalar_string(&Json::Null), None);
}

#[test]
fn sorted_distinct_texts() {
    let v = vec!["b".to_string(), "a".to_string(), "b".to_string(), "B".to_string()];
    assert_eq!(sorted_unique(&v), vec!["B".to_string(), "a".to_string(), "b".to_string()]);
}

use uce::ccc_package_sync::{destination_path_for_item, path_under_root, ClaimItem};

fn item(ro: &str, sub_folder: Option<&str>, bucket: &str, file: &str) -> ClaimItem {
    ClaimItem {
        queue_id: "q".to_string(),
        action_type: None,
        ro_folder_name: Some(ro.to_string()),
        sub_folder: sub_folder.map(String::from),
        bucket: if bucket.is_empty() {
            None
        } else {
            Some(bucket.to_string())
        },
        signed_url: Some("https://example.com/x".to_string()),
        filename: Some(file.to_string()),
        target_path_hint: None,
        source_table: "t".to_string(),
        source_id: "id".to_string(),
    }
}

#[test]
fn uses_sub_folder_when_present() {
    let p = destination_path_for_item(
        r"C:\FileWisely\CCC Import",
        &item("RO1", Some("photos/check_in"), "", "pic.jpg"),
    );
    let s = p.as_str();
    assert!(s.contains("RO1"));
    assert!(s.contains("photos"));
    assert!(s.contains("check_in"));
    assert!(s.ends_with("pic.jpg"));
}

#[test]
fn legacy_bucket_when_no_sub_folder() {
    let p = destination_path_for_item(
        r"C:\FileWisely\CCC Import",
        &item("RO1", None, "estimate", "doc.pdf"),
    );
    let s = p.as_str();
    assert!(s.contains("estimate"));
    assert!(s.ends_with("doc.pdf"));
}

#[test]
fn flat_when_no_sub_folder_or_bucket() {
    let p = destination_path_for_item(
        r"C:\FileWisely\CCC Import",
        &item("RO1", None, "", "only.pdf"),
    );
    let s = p.as_str();
    assert!(s.ends_with(r"RO1\only.pdf") || s.ends_with("RO1/only.pdf"));
}

#[test]
fn delete_folder_resolves_under_root() {
    let p = path_under_root(r"C:\FileWisely\CCC Import", "RO1_Smith").unwrap();
    let s = p.as_str();
    assert!(s.contains("RO1_Smith"));
    assert!(s.contains("CCC Import"));
}

#[test]
fn destination_exact_layouts() {
    let root = r"C:\FileWisely\CCC Import";
    assert_eq!(
        destination_path_for_item(root, &item("RO1", Some("photos/check_in"), "", "pic.jpg")),
        r"C:\FileWisely\CCC Import\RO1\photos\check_in\pic.jpg"
    );
    assert_eq!(
        destination_path_for_item(root, &item(" RO:7 ", Some("  "), "estimate", "a?b.pdf.")),
        r"C:\FileWisely\CCC Import\RO_7\estimate\a_b.pdf"
    );
    // An unusable sub folder part falls back to the bucket layout.
    assert_eq!(
        destination_path_for_item(root, &item("RO1", Some("photos/../x"), "", "f.jpg")),
        r"C:\FileWisely\CCC Import\RO1\f.jpg"
    );
    assert_eq!(
        destination_path_for_item(root, &item("..", None, "", "..")),
        r"C:\FileWisely\CCC Import\RO\file"
    );
}

#[test]
fn path_under_root_rejects_dot_dot_and_empty_parts() {
    assert_eq!(path_under_root(r"C:\root", "a/../b"), None);
    assert_eq!(path_under_root(r"C:\root", "a//b"), None);
    assert_eq!(
        path_under_root(r"C:\root\", "/a\\b/"),
        None
    );
    assert_eq!(
        path_under_root(r"C:\root\", "a\\b"),
        Some(r"C:\root\a\b".to_string())
    );
}

#[test]
fn claim_item_action_defaults_to_mirror() {
    let mut it = item("RO1", None, "", "x");
    assert_eq!(it.action(), "mirror_file");
    it.action_type = Some("  ".to_string());
    assert_eq!(it.action(), "mirror_file");
    it.action_type = Some("delete_folder".to_string());
    assert_eq!(it.action(), "delete_folder");
}

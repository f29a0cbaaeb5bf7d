use uce::claim_parse::{camel_to_snake_field, parse_claim_batch, parse_claim_batch_body};
use uce::json::Json;

#[test]
fn parses_snake_case_items() {
    let body = r#"{"items":[{"queue_id":"550e8400-e29b-41d4-a716-446655440000","ro_folder":"RO1","signed_url":"https://x.test/a.jpg","filename_hint":"a.jpg","source_table":"business_documents","source_id":"42"}]}"#;
    let items = parse_claim_batch_body(body).unwrap();
    assert_eq!(items.len(), 1);
    assert_eq!(items[0].ro_folder_name.as_deref(), Some("RO1"));
}

#[test]
fn parses_camel_case_and_nested_mirror_file() {
    let body = r#"{"items":[{"queueId":"550e8400-e29b-41d4-a716-446655440000","actionType":"mirror_file","mirror_file":{"roFolder":"RO2","signedUrl":"https://x.test/b.jpg","filenameHint":"b.jpg"},"sourceTable":"business_documents","sourceId":99}]}"#;
    let items = parse_claim_batch_body(body).unwrap();
    assert_eq!(items.len(), 1);
    assert_eq!(items[0].filename.as_deref(), Some("b.jpg"));
    assert_eq!(items[0].source_id, "99");
}

#[test]
fn infers_source_table_for_mirror_without_ack_fields() {
    let body = r#"{"items":[{"queue_id":"550e8400-e29b-41d4-a716-446655440000","ro_folder":"RO1","signed_url":"https://x.test/a.jpg","filename_hint":"a.jpg","document_id":"doc-uuid-1"}]}"#;
    let items = parse_claim_batch_body(body).unwrap();
    assert_eq!(items.len(), 1);
    assert_eq!(items[0].source_table, "business_documents");
    assert_eq!(items[0].source_id, "doc-uuid-1");
}

#[test]
fn parses_compact_source_object() {
    let body = r#"{"items":[{"queue_id":"550e8400-e29b-41d4-a716-446655440001","signed_url":"https://x.test/c.jpg","filename":"c.jpg","source":{"table":"business_documents","id":"99"}}]}"#;
    let items = parse_claim_batch_body(body).unwrap();
    assert_eq!(items[0].source_table, "business_documents");
    assert_eq!(items[0].source_id, "99");
}

#[test]
fn fails_when_jobs_present_but_unparseable() {
    let body = r#"{"items":[{"queueId":"x","signed_url":"https://x.test/d.jpg"}]}"#;
    assert!(parse_claim_batch_body(body).is_err());
}

#[test]
fn root_must_be_object_or_array() {
    let r = parse_claim_batch_body("\"x\"");
    assert_eq!(r.err().as_deref(), Some("claim response root must be object or array"));
}

#[test]
fn top_level_array_is_the_item_list() {
    let items = parse_claim_batch_body("[]").unwrap();
    assert!(items.is_empty());
}

#[test]
fn invalid_json_text_is_reported() {
    let r = parse_claim_batch_body("{\"items\": [");
    let e = r.err().unwrap();
    assert!(e.starts_with("claim JSON invalid: "), "{e}");
    assert!(e.len() > "claim JSON invalid: ".len());
}

#[test]
fn camel_keys_become_snake() {
    assert_eq!(camel_to_snake_field("queueId"), "queue_id");
    assert_eq!(camel_to_snake_field("roFolder"), "ro_folder");
    assert_eq!(camel_to_snake_field("already_snake"), "already_snake");
}

#[test]
fn missing_items_lists_the_top_level_keys() {
    let r = parse_claim_batch_body(r#"{"b\"x": null, "a": null}"#);
    assert_eq!(
        r.err().as_deref(),
        Some("claim response missing items array (top-level keys: [\"a\", \"b\\\"x\"])")
    );
}

#[test]
fn a_parsed_root_decodes_as_its_text() {
    let root = Json::Array(vec![]);
    let items = parse_claim_batch(root, "[]").unwrap();
    assert!(items.is_empty());
}

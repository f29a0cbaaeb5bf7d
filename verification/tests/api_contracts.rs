use uce::api_contracts::{
    device_id_ok, is_uuid, validate_claim_batch_request, validate_heartbeat_request,
    validate_package_ack_request,
};

#[test]
fn uuid_accepts_valid() {
    assert!(is_uuid("550e8400-e29b-41d4-a716-446655440000"));
}

#[test]
fn claim_requires_business_id() {
    assert!(validate_claim_batch_request("", "uce-abc", 25).is_err());
}

#[test]
fn uuid_trims_and_accepts_upper_case() {
    assert!(is_uuid("  550E8400-E29B-41D4-A716-446655440000\n"));
}

#[test]
fn uuid_rejects_wrong_layout() {
    assert!(!is_uuid("550e8400e29b-41d4-a716-4466554400001"));
    assert!(!is_uuid("550e8400-e29b-41d4-a716-44665544000g"));
    assert!(!is_uuid(""));
}

#[test]
fn device_id_bounds() {
    assert!(device_id_ok("uce-abc_1"));
    assert!(!device_id_ok("uce-abc"));
    assert!(!device_id_ok("uce abc def"));
    assert!(device_id_ok(&"a".repeat(128)));
    assert!(!device_id_ok(&"a".repeat(129)));
}

#[test]
fn claim_batch_messages_are_exact() {
    let e = validate_claim_batch_request("", "", 0).unwrap_err();
    assert_eq!(
        e,
        "contract validation failed: business_id is required; device_id is required; limit must be between 1 and 100 (got 0)"
    );
    let e = validate_claim_batch_request("nope", "uce-device-1", 25).unwrap_err();
    assert_eq!(
        e,
        "contract validation failed: business_id must be a UUID (got \"nope\")"
    );
    assert!(validate_claim_batch_request(
        "550e8400-e29b-41d4-a716-446655440000",
        "uce-device-1",
        100
    )
    .is_ok());
    let e = validate_claim_batch_request(
        "550e8400-e29b-41d4-a716-446655440000",
        "short",
        101,
    )
    .unwrap_err();
    assert_eq!(
        e,
        "contract validation failed: device_id must be 8–128 chars (alphanumeric, -, _); limit must be between 1 and 100 (got 101)"
    );
}

#[test]
fn heartbeat_messages_are_exact() {
    let e = validate_heartbeat_request("x", "bad id").unwrap_err();
    assert_eq!(
        e,
        "contract validation failed: business_id must be a UUID; device_id invalid"
    );
    assert!(validate_heartbeat_request("550e8400-e29b-41d4-a716-446655440000", "uce-device-1").is_ok());
}

#[test]
fn package_ack_messages_are_exact() {
    assert!(validate_package_ack_request(
        "550e8400-e29b-41d4-a716-446655440000",
        " ok ",
        "business_documents",
        "42"
    )
    .is_ok());
    let e = validate_package_ack_request("", "maybe", " ", "").unwrap_err();
    assert_eq!(
        e,
        "contract validation failed: queue_id is required; source_table is required; source_id is required; status must be ok or error (got \"maybe\")"
    );
}

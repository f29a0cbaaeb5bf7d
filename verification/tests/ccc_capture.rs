use uce::services::ccc_batch::{
    basename_key, ccc_eligibility, ccc_file_fingerprint, claim_failure_reason,
    office_prompt_after_claim_failure, sweep_skips_dir, sweeper_tag, CccBatchState, CccEligibility,
};
use uce::services::ccc_capture_diag::{
    capture_test_hit, capture_test_miss, capture_test_timeout_secs, is_ccc_related_path,
    should_record_from_rule, CccSeenRing,
};
use uce::services::converter::DUPLICATE_OFFICE_PIPELINE_SKIPPED;

#[test]
fn eligibility_of_ccc_temp_files() {
    assert!(ccc_eligibility("pdf", 0) == CccEligibility::Pdf);
    assert!(ccc_eligibility("docx", 63) == CccEligibility::TooSmall);
    assert!(ccc_eligibility("rtf", 64) == CccEligibility::Office);
    assert!(ccc_eligibility("tmp", 1000) == CccEligibility::UnsupportedExtension);
}

#[test]
fn claim_failures() {
    assert_eq!(claim_failure_reason(true, DUPLICATE_OFFICE_PIPELINE_SKIPPED), "duplicate_suppressed");
    assert_eq!(claim_failure_reason(false, "x"), "file_disappeared_before_claim");
    assert_eq!(claim_failure_reason(true, "Could not claim C:\\a after 34 attempts (last: busy)"), "move_failed_locked");
    assert_eq!(claim_failure_reason(true, "disk"), "processing_error");
    assert!(office_prompt_after_claim_failure("move_failed_locked", true, true));
    assert!(!office_prompt_after_claim_failure("move_failed_locked", false, true));
    assert!(sweep_skips_dir(".UCE_staging"));
    assert_eq!(sweeper_tag(false, true), "burst_sweeper");
    assert_eq!(sweeper_tag(false, false), "interval_sweeper");
    assert_eq!(ccc_file_fingerprint("c:\\t\\a.pdf", 10, 99), "c:\\t\\a.pdf|10|99");
    assert_eq!(basename_key("C:\\T\\CCC\\Est.PDF"), "est.pdf");
}

#[test]
fn duplicates_within_two_minutes() {
    let mut st = CccBatchState::new();
    assert!(!st.is_dup("fp", 1_000));
    st.insert_dedupe("fp".to_string(), 1_000);
    assert!(st.is_dup("fp", 100_000));
    assert!(!st.is_dup("fp", 200_000));
    assert!(st.dedupe.is_empty());
}

#[test]
fn bursts_and_summary() {
    let mut st = CccBatchState::new();
    assert!(!st.on_eligible_file_detected("a.pdf", 1_000, false));
    assert_eq!(st.burst_until, None);
    st.on_eligible_file_detected("b.pdf", 2_000, false);
    assert_eq!(st.burst_until, Some(10_000));
    assert!(st.burst_active(9_000));
    assert!(!st.summary_due(9_000));
    assert!(st.summary_due(10_000));
    st.note_moved("a.pdf");
    st.note_processed("a.pdf");
    st.note_upload_for_batch("C:\\FileWisely\\Incoming\\A.PDF", true);
    st.note_miss_reason("too_small");
    st.note_miss_reason("too_small");
    st.note_upload_for_batch("C:\\x\\b.pdf", false);
    assert_eq!(st.summary_counts(), (2, 1, 1, 1, 1));
    assert_eq!(st.reason_counts.iter().find(|(k, _)| k == "too_small").map(|(_, n)| *n), Some(2));
    assert_eq!(st.reason_counts.iter().find(|(k, _)| k == "upload_failed").map(|(_, n)| *n), Some(1));
    assert!(st.on_eligible_file_detected("c.pdf", 20_000, true));
    assert!(!st.on_eligible_file_detected("d.pdf", 20_500, true));
    st.reset();
    assert!(st.seen_basenames.is_empty());
    assert_eq!(st.burst_until, None);
}

#[test]
fn ccc_seen_ring() {
    assert!(is_ccc_related_path("C:\\Users\\a\\AppData\\Local\\Temp\\CCC\\x.pdf"));
    assert!(is_ccc_related_path("c:\\CCC\\WORKFILES\\x.pdf"));
    assert!(!is_ccc_related_path("D:\\x.pdf"));
    assert!(should_record_from_rule("ccc_autodiscovered"));
    assert!(!should_record_from_rule("general_desktop"));
    let mut r = CccSeenRing::new();
    assert!(r.record_ccc_file_seen("C:\\CCC\\a.pdf", None, 1_000));
    assert!(!r.record_ccc_file_seen("C:\\CCC\\a.pdf", None, 1_100));
    assert!(!r.record_ccc_file_seen("D:\\x.pdf", Some("general_desktop"), 1_200));
    assert!(r.record_ccc_file_seen("D:\\x.pdf", Some("ccc_path"), 1_300));
    assert_eq!(r.last_ccc_files_seen(), vec!["C:\\CCC\\a.pdf".to_string(), "D:\\x.pdf".to_string()]);
}

#[test]
fn capture_test_results() {
    assert_eq!(capture_test_timeout_secs(1), 5);
    assert_eq!(capture_test_timeout_secs(900), 300);
    assert_eq!(capture_test_timeout_secs(60), 60);
    let hit = capture_test_hit("C:\\CCC\\n.pdf".to_string(), 1500, vec!["C:\\CCC".to_string()]);
    assert!(hit.ok);
    assert_eq!(hit.message, "New PDF appeared under CCC-related roots");
    let miss = capture_test_miss(30, 4, 30_000, vec![]);
    assert!(!miss.ok);
    assert_eq!(miss.message, "No new PDF under CCC roots within 30s (initial baseline had 4 PDFs)");
}

#[test]
fn seen_ring_keeps_the_last_twenty() {
    let mut r = CccSeenRing::new();
    for i in 0..25u64 {
        let p = format!("C:\\CCC\\f{i}.pdf");
        assert!(r.record_ccc_file_seen(&p, None, i * 1_000));
    }
    let seen = r.last_ccc_files_seen();
    assert_eq!(seen.len(), 20);
    assert_eq!(seen[0], "C:\\CCC\\f5.pdf");
    assert_eq!(seen[19], "C:\\CCC\\f24.pdf");
}

use uce::services::ccc_batch::{CccBatchState, CccIntake};

fn count(st: &CccBatchState, reason: &str) -> u32 {
    st.reason_counts.iter().find(|(k, _)| k == reason).map(|(_, c)| *c).unwrap_or(0)
}

#[test]
fn intake_of_detected_files() {
    let mut st = CccBatchState::new();
    assert_eq!(st.ccc_intake("txt", 500, Some("fp0"), "a.txt", 1_000, false), (CccIntake::UnsupportedExtension, false));
    assert_eq!(count(&st, "unsupported_extension"), 1);
    assert!(st.seen_basenames.is_empty());
    assert_eq!(st.ccc_intake("docx", 10, Some("fp1"), "b.docx", 1_000, false), (CccIntake::TooSmall, false));
    assert!(st.seen_basenames.is_empty());
    assert_eq!(st.ccc_intake("pdf", 0, None, "c.pdf", 1_000, false), (CccIntake::NoMetadata, false));
    assert_eq!(st.seen_basenames, vec!["c.pdf".to_string()]);
    assert_eq!(st.ccc_intake("pdf", 10, Some("fp2"), "d.pdf", 1_100, true), (CccIntake::ClaimPdf, true));
    assert_eq!(st.ccc_intake("rtf", 100, Some("fp3"), "e.rtf", 1_200, true), (CccIntake::ClaimOffice, false));
}

#[test]
fn claims_and_duplicates() {
    let mut st = CccBatchState::new();
    assert_eq!(st.ccc_intake("pdf", 10, Some("fp"), "a.pdf", 1_000, false).0, CccIntake::ClaimPdf);
    assert_eq!(st.ccc_claim_result("a.pdf", "fp", 1_000, Ok(()), true), None);
    assert_eq!(st.moved_basenames, vec!["a.pdf".to_string()]);
    // The same file again within 120 s is a duplicate.
    assert_eq!(st.ccc_intake("pdf", 10, Some("fp"), "a.pdf", 60_000, false).0, CccIntake::Duplicate);
    assert_eq!(count(&st, "duplicate_suppressed"), 1);
    // After the window it is claimed again.
    assert_eq!(st.ccc_intake("pdf", 10, Some("fp"), "a.pdf", 200_000, false).0, CccIntake::ClaimPdf);
    let miss = st.ccc_claim_result("b.pdf", "fpb", 200_000, Err("Could not claim b.pdf after 34 attempts".to_string()), true);
    assert_eq!(miss.as_deref(), Some("move_failed_locked"));
    let miss = st.ccc_claim_result("c.pdf", "fpc", 200_000, Err("boom".to_string()), false);
    assert_eq!(miss.as_deref(), Some("file_disappeared_before_claim"));
    let miss = st.ccc_claim_result("d.pdf", "fpd", 200_000, Err("duplicate office pipeline (skipped)".to_string()), true);
    assert_eq!(miss.as_deref(), Some("duplicate_suppressed"));
    assert_eq!(count(&st, "duplicate_suppressed"), 2);
    st.ccc_printed("w.docx", "fpw", 200_000);
    assert!(st.moved_basenames.contains(&"w.docx".to_string()));
    assert!(st.processed_basenames.contains(&"w.docx".to_string()));
    assert_eq!(st.ccc_intake("docx", 100, Some("fpw"), "w.docx", 200_500, false).0, CccIntake::Duplicate);
}

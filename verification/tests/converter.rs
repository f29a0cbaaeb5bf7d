use uce::services::converter::{
    convert_paths, convert_precheck, is_convertible_office_path, is_pdf, libreoffice_args,
    libreoffice_error, needs_conversion, office_output_dir_and_pdf_stem,
    office_staging_root_for_incoming, path_is_under_uce_staging, pdf_stem_from_staged_filename,
    soffice_candidates, staged_claim_path, strip_nano_stem_prefix, unique_failed_dest,
    word_file_selected, ClaimKind, ClaimLoop, ClaimOutcome, ClaimStep,
};
use uce::services::incoming_unique_rename::{
    fw_unique_name_for, is_fw_unique_office_name, is_fw_unique_pdf_name,
    unique_rename_incoming_office_if_needed, unique_rename_incoming_pdf_if_needed,
};

#[test]
fn office_and_pdf_paths() {
    assert!(is_convertible_office_path("C:\\a\\b.DOCX"));
    assert!(is_convertible_office_path("C:\\a\\b.odp"));
    assert!(!is_convertible_office_path("C:\\a\\b.pdf"));
    assert!(is_pdf("C:\\a\\b.PdF"));
    assert!(!is_pdf("C:\\a\\pdf"));
    assert!(path_is_under_uce_staging("C:\\FileWisely\\.UCE_Staging\\1_a.docx"));
    assert!(!path_is_under_uce_staging("C:\\FileWisely\\Incoming\\a.docx"));
}

#[test]
fn staged_stems() {
    assert_eq!(strip_nano_stem_prefix("1712345_Estimate"), "Estimate");
    assert_eq!(strip_nano_stem_prefix("Estimate_1"), "Estimate_1");
    assert_eq!(strip_nano_stem_prefix("12345"), "12345");
    assert_eq!(pdf_stem_from_staged_filename("C:\\s\\.uce_staging\\99_RO 12.docx").unwrap(), "RO 12");
}

#[test]
fn claim_kinds() {
    assert!(ClaimKind::Office.validate("C:\\x.rtf").is_ok());
    assert_eq!(ClaimKind::Office.validate("C:\\x.txt").err().as_deref(), Some("Not a convertible Office document"));
    assert_eq!(ClaimKind::Pdf.validate("C:\\x.doc").err().as_deref(), Some("Not a PDF"));
    assert_eq!(ClaimKind::Office.default_ext(), "docx");
    assert_eq!(ClaimKind::Pdf.first_try_foreground(), "pdf_claim_before_first_try");
    assert_eq!(ClaimKind::Office.retry_foreground(), "office_claim_retry");
}

#[test]
fn staging_paths() {
    assert_eq!(
        staged_claim_path("C:\\FileWisely\\.uce_staging", "C:\\in\\Est.docx", "Est", ClaimKind::Office, 100, 3),
        "C:\\FileWisely\\.uce_staging\\103_Est.docx"
    );
    assert_eq!(
        staged_claim_path("C:\\s\\", "C:\\in\\noext", "n", ClaimKind::Pdf, u128::MAX, 2),
        "C:\\s\\1_n.pdf"
    );
    assert_eq!(office_staging_root_for_incoming(false, true, "C:\\out"), "C:\\FileWisely\\.uce_staging");
    assert_eq!(office_staging_root_for_incoming(true, true, "C:\\out"), "C:\\out\\.uce_staging");
}

#[test]
fn claim_retries_then_gives_up() {
    let mut l = ClaimLoop::new(true);
    assert_eq!(l.max_attempts, 34);
    assert_eq!(l.interval_ms, 150);
    for _ in 0..32 {
        assert!(matches!(l.record(ClaimOutcome::Missing, "C:\\a.pdf"), ClaimStep::Retry));
    }
    assert!(matches!(l.record(ClaimOutcome::Failed("busy".to_string()), "C:\\a.pdf"), ClaimStep::Retry));
    match l.record(ClaimOutcome::NotAFile, "C:\\a.pdf") {
        ClaimStep::GiveUp(m) => assert_eq!(m, "Could not claim C:\\a.pdf after 34 attempts (last: busy)"),
        _ => panic!("expected give up"),
    }
    let mut l2 = ClaimLoop::new(false);
    assert_eq!(l2.max_attempts, 120);
    assert!(matches!(l2.record(ClaimOutcome::Claimed, "x"), ClaimStep::Done));
}

#[test]
fn conversion_steps() {
    assert_eq!(
        convert_precheck("C:\\x\\a.docx", true).err().as_deref(),
        Some("Internal error: convert_staged_office_to_pdf requires a path under .uce_staging")
    );
    assert_eq!(convert_precheck("C:\\.uce_staging\\a.docx", false).err().as_deref(), Some("Staged Office file does not exist"));
    assert_eq!(convert_precheck("C:\\.uce_staging\\a.txt", true).err().as_deref(), Some("Not a convertible Office file"));
    assert!(convert_precheck("C:\\.uce_staging\\a.docx", true).is_ok());
    let p = convert_paths("C:\\.uce_staging\\1_a.RTF", "C:\\out", "a");
    assert_eq!(p.work_path, "C:\\out\\a_ucework.RTF");
    assert_eq!(p.pdf_from_lo, "C:\\out\\a_ucework.pdf");
    assert_eq!(p.pdf_final, "C:\\out\\a.pdf");
    assert_eq!(
        libreoffice_args("C:\\in.docx", "C:\\out"),
        vec!["--headless", "--invisible", "--nologo", "--nofirststartwizard", "--convert-to", "pdf", "C:\\in.docx", "--outdir", "C:\\out"]
    );
    assert_eq!(libreoffice_error("exit code: 1", " boom \n", ""), "LibreOffice exit exit code: 1: stderr=boom stdout=");
    assert!(needs_conversion(false, None, None));
    assert!(needs_conversion(true, Some(10), Some(5)));
    assert!(!needs_conversion(true, Some(5), Some(5)));
    assert!(needs_conversion(true, None, Some(5)));
}

#[test]
fn office_outputs_and_failures() {
    let (d, s) = office_output_dir_and_pdf_stem(Some("C:\\FileWisely\\Incoming"), "C:\\FileWisely\\Incoming\\Est.docx", 5, 0);
    assert_eq!(d, "C:\\FileWisely\\Incoming");
    assert_eq!(s, "Est");
    let (d, s) = office_output_dir_and_pdf_stem(None, "C:\\x\\Est.docx", 1700, 255);
    assert_eq!(d, "C:\\FileWisely\\Incoming");
    assert_eq!(s, "fw_1700_0000ff");
    assert_eq!(unique_failed_dest("C:\\in\\a.docx", "C:\\failed", false, 9), "C:\\failed\\a.docx");
    assert_eq!(unique_failed_dest("C:\\in\\a.docx", "C:\\failed", true, 9), "C:\\failed\\a_9.docx");
    assert_eq!(
        soffice_candidates(Some(" D:\\lo\\soffice.exe "), Some("  ")),
        vec![
            "D:\\lo\\soffice.exe".to_string(),
            "C:\\Program Files\\LibreOffice\\program\\soffice.exe".to_string(),
            "C:\\Program Files (x86)\\LibreOffice\\program\\soffice.exe".to_string(),
        ]
    );
    assert!(word_file_selected("C:\\a.DOCX", 100, Some(10), Some(5)));
    assert!(!word_file_selected("C:\\a.docx", 10, Some(10), Some(5)));
    assert!(!word_file_selected("C:\\a.docx", 100, Some(1), Some(5)));
    assert!(!word_file_selected("C:\\a.rtf", 100, None, None));
}

#[test]
fn incoming_unique_names() {
    assert!(is_fw_unique_pdf_name("fw_1712345678901_a1b2c3.pdf"));
    assert!(!is_fw_unique_pdf_name("document.pdf"));
    assert!(is_fw_unique_office_name("fw_1712345678901_a1b2c3.docx"));
    assert!(unique_rename_incoming_pdf_if_needed("C:\\FileWisely\\Incoming\\document.pdf", true));
    assert!(!unique_rename_incoming_pdf_if_needed("C:\\FileWisely\\Incoming\\document.pdf", false));
    assert!(!unique_rename_incoming_pdf_if_needed("C:\\FileWisely\\Incoming\\fw_1712345678901_a1b2c3.pdf", true));
    assert_eq!(unique_rename_incoming_office_if_needed("C:\\FileWisely\\Incoming\\Est.DOCX", true).as_deref(), Some(".docx"));
    assert_eq!(unique_rename_incoming_office_if_needed("C:\\FileWisely\\Incoming\\Est.xlsx", true), None);
    let n = fw_unique_name_for(1712345678901, 0, 0, ".pdf");
    assert!(n.starts_with("fw_1712345678901_"));
    assert!(is_fw_unique_pdf_name(&n));
}

#[test]
fn renamed_pdf_is_not_renamed_again() {
    for attempt in [0u32, 1, 47] {
        let name = fw_unique_name_for(1_700_000_000_123, 987_654_321_012, attempt, ".pdf");
        assert!(is_fw_unique_pdf_name(&name));
        let path = format!("C:\\FileWisely\\Incoming\\{name}");
        assert!(!unique_rename_incoming_pdf_if_needed(&path, true));
    }
    assert!(unique_rename_incoming_pdf_if_needed("C:\\FileWisely\\Incoming\\document.pdf", true));
}

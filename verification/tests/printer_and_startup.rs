use uce::ccc_import_settings::{folder_dialog_script, pick_folder_dialog};
use uce::services::printer_bullzip_ini::{ensure_silent_bullzip_ini, incoming_output_line, ini_body};
use uce::services::printer_check::{
    check_filewisely_printer, dedupe_search_roots, is_setup_exe_candidate, is_skipped_setup_exe,
    repair_filewisely_printer, PrinterCheckResult, RepairAction, RepairEvent,
};
use uce::services::startup_shortcut::{ensure_filewisely_uce_shortcut, shortcut_exit_error};

#[test]
fn bullzip_ini_text_is_exact() {
    assert_eq!(incoming_output_line(), "C:\\FileWisely\\Incoming\\<date>_<time>_<docname>.pdf");
    assert_eq!(
        ini_body(),
        "[PDF Printer]\nOutput=C:\\FileWisely\\Incoming\\<date>_<time>_<docname>.pdf\nShowSaveAS=never\nShowSettings=never\nShowPDF=no\nConfirmOverwrite=no\nDisableOptionDialog=yes\nOpenFolder=no\nOpenPDF=no\n"
    );
}

#[test]
fn bullzip_ini_paths_follow_the_environment() {
    let all = ensure_silent_bullzip_ini(Some("C:\\ProgramData"), Some("C:\\Users\\a\\AppData\\Roaming"));
    let paths: Vec<&str> = all.iter().map(|(p, _)| p.as_str()).collect();
    assert_eq!(
        paths,
        vec![
            "C:\\ProgramData\\PDF Writer\\FileWisely Printer\\global.ini",
            "C:\\ProgramData\\PDF Writer\\Bullzip PDF Printer\\global.ini",
            "C:\\ProgramData\\Bullzip\\PDF Printer\\global.ini",
            "C:\\Users\\a\\AppData\\Roaming\\Bullzip\\PDF Printer\\settings.ini",
        ]
    );
    assert!(all.iter().all(|(_, b)| *b == ini_body()));
    let only_user = ensure_silent_bullzip_ini(None, Some("D:\\r"));
    assert_eq!(only_user.len(), 1);
    assert_eq!(only_user[0].0, "D:\\r\\Bullzip\\PDF Printer\\settings.ini");
    assert!(ensure_silent_bullzip_ini(None, None).is_empty());
}

#[test]
fn startup_shortcut_plan() {
    let plan = ensure_filewisely_uce_shortcut(
        "C:\\Program Files\\Bob's \"UCE\"\\uce.exe",
        "C:\\Program Files\\Bob's \"UCE\"",
        "C:\\Users\\a\\AppData\\Roaming",
    );
    assert_eq!(
        plan.lnk_path,
        "C:\\Users\\a\\AppData\\Roaming\\Microsoft\\Windows\\Start Menu\\Programs\\Startup\\FileWisely UCE.lnk"
    );
    assert_eq!(
        plan.script,
        "$w = New-Object -ComObject WScript.Shell; $s = $w.CreateShortcut('C:\\Users\\a\\AppData\\Roaming\\Microsoft\\Windows\\Start Menu\\Programs\\Startup\\FileWisely UCE.lnk'); $s.TargetPath = 'C:\\Program Files\\Bob''s \"UCE\"\\uce.exe'; $s.WorkingDirectory = 'C:\\Program Files\\Bob''s \"UCE\"'; $s.Description = 'FileWisely Universal Capture Engine'; $s.Save()"
    );
    assert_eq!(plan.run_value, "\"C:\\Program Files\\Bob's UCE\\uce.exe\"");
    assert_eq!(shortcut_exit_error(Some(1)), "Startup shortcut: powershell exited with Some(1)");
    assert_eq!(shortcut_exit_error(None), "Startup shortcut: powershell exited with None");
}

#[test]
fn folder_picker() {
    assert_eq!(
        folder_dialog_script("Pick CCC's folder", "C:\\x"),
        "Add-Type -AssemblyName System.Windows.Forms\n$d = New-Object System.Windows.Forms.FolderBrowserDialog\n$d.Description = 'Pick CCC''s folder'\n$d.SelectedPath = 'C:\\x'\n$d.ShowNewFolderButton = $true\nif ($d.ShowDialog() -eq [System.Windows.Forms.DialogResult]::OK) { Write-Output $d.SelectedPath }"
    );
    assert_eq!(pick_folder_dialog(true, "  C:\\CCC Import\r\n").as_deref(), Some("C:\\CCC Import"));
    assert_eq!(pick_folder_dialog(true, " \r\n"), None);
    assert_eq!(pick_folder_dialog(false, "C:\\x"), None);
}

#[test]
fn printer_check_outcomes() {
    let ok = check_filewisely_printer(
        true,
        "{}",
        "",
        Ok(PrinterCheckResult { filewisely_exact: true, matching_names: vec!["Bullzip".to_string()] }),
    )
    .unwrap();
    assert!(ok.filewisely_exact);
    assert_eq!(ok.matching_names, vec!["Bullzip".to_string()]);
    let failed = check_filewisely_printer(false, "", "access denied", Err("x".to_string()));
    assert_eq!(failed.err().as_deref(), Some("printer check failed: access denied"));
    let bad = check_filewisely_printer(true, "oops", "", Err("expected value".to_string()));
    assert_eq!(bad.err().as_deref(), Some("parse printer JSON: expected value: oops"));
}

#[test]
fn setup_exe_choice() {
    assert!(is_skipped_setup_exe("Uninstall.exe"));
    assert!(is_skipped_setup_exe("VC_redist.x64.exe") == false);
    assert!(is_skipped_setup_exe("vcredist_x86.exe"));
    assert!(is_setup_exe_candidate("Setup_BullzipPDFPrinter.EXE"));
    assert!(!is_setup_exe_candidate("readme.txt"));
    assert!(!is_setup_exe_candidate("uninstall.exe"));
    let roots = vec!["C:\\A".to_string(), "c:\\a".to_string(), "C:\\B".to_string()];
    assert_eq!(dedupe_search_roots(&roots), vec!["C:\\A".to_string(), "C:\\B".to_string()]);
}

#[test]
fn repair_steps() {
    match repair_filewisely_printer(RepairEvent::FirstCheck { present: true }) {
        RepairAction::Done { refresh_ini, result } => {
            assert!(refresh_ini);
            assert!(result.ok);
            assert_eq!(result.message, "Printer already present");
        }
        _ => panic!("expected done"),
    }
    assert!(matches!(
        repair_filewisely_printer(RepairEvent::FirstCheck { present: false }),
        RepairAction::SearchSetup
    ));
    match repair_filewisely_printer(RepairEvent::SetupSearched { found: None }) {
        RepairAction::Done { refresh_ini, result } => {
            assert!(!refresh_ini);
            assert!(!result.ok);
            assert!(result.message.starts_with("No PDF printer installer found."));
        }
        _ => panic!("expected done"),
    }
    match repair_filewisely_printer(RepairEvent::SetupSearched { found: Some("C:\\s.exe".to_string()) }) {
        RepairAction::RunInstaller(p) => assert_eq!(p, "C:\\s.exe"),
        _ => panic!("expected installer"),
    }
    match repair_filewisely_printer(RepairEvent::InstallerExited { success: false, code: Some(1223) }) {
        RepairAction::Done { result, .. } => assert_eq!(
            result.message,
            "PDF installer exited with code Some(1223) (declined UAC or silent failure \u{2014} try running UCE as Administrator once, or install Bullzip manually)"
        ),
        _ => panic!("expected done"),
    }
    assert!(matches!(
        repair_filewisely_printer(RepairEvent::InstallerExited { success: true, code: Some(0) }),
        RepairAction::RenameAndRecheck
    ));
    match repair_filewisely_printer(RepairEvent::FinalCheck { present: false }) {
        RepairAction::Done { refresh_ini, result } => {
            assert!(refresh_ini);
            assert!(!result.ok);
            assert!(result.message.starts_with("Repair attempted;"));
        }
        _ => panic!("expected done"),
    }
    match repair_filewisely_printer(RepairEvent::FinalCheck { present: true }) {
        RepairAction::Done { result, .. } => assert_eq!(result.message, "Repair completed"),
        _ => panic!("expected done"),
    }
}

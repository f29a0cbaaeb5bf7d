use uce::context_training::{
    clear_exclude_rules_for_current_context, exclude_current_context_from_ccc,
    forget_trained_rules_for_current_context, title_signature_for_training,
    train_current_context_as_ccc, train_current_context_for_workflow,
    training_keywords_for_current_window, workflow_for_training,
};
use uce::types::Rule;

fn rule(id: &str, app: &[&str], title: &[&str]) -> Rule {
    Rule {
        id: id.to_string(),
        app_keywords: app.iter().map(|s| s.to_string()).collect(),
        title_keywords: title.iter().map(|s| s.to_string()).collect(),
        title_keywords_all: vec![],
        priority: 5,
        cooldown_secs: 8,
        workflow_kind: String::new(),
    }
}

#[test]
fn title_signatures() {
    assert_eq!(title_signature_for_training("Estimate - 12345 Smith - Google Chrome"), "estimate smith");
    assert_eq!(title_signature_for_training("New Tab - Google Chrome"), "repair order");
    assert_eq!(
        title_signature_for_training("CCC ONE - Workfile RO 4421 - Microsoft Edge"),
        "ccc one workfile"
    );
    assert_eq!(title_signature_for_training("alpha bravo charlie delta echo"), "alpha bravo charlie delta");
    assert_eq!(title_signature_for_training(""), "repair order");
}

#[test]
fn training_keywords() {
    let (k, s) = training_keywords_for_current_window("msedge.exe", "Parts - Microsoft Edge");
    assert_eq!(k, vec!["chrome", "msedge", "firefox"]);
    assert_eq!(s, "parts");
    let (k, _) = training_keywords_for_current_window("unknown", "x");
    assert!(k.is_empty());
    let (k, _) = training_keywords_for_current_window("CCCOne.EXE", "x");
    assert_eq!(k, vec!["cccone.exe"]);
}

#[test]
fn training_adds_each_pattern_once() {
    let mut rules = Vec::new();
    let m = train_current_context_as_ccc(&mut rules, "chrome.exe", "Estimate Review - Google Chrome", 100);
    assert_eq!(m, "Trained CCC pattern: estimate review");
    assert_eq!(rules.len(), 1);
    assert_eq!(rules[0].id, "ccc_trained_100");
    assert_eq!(rules[0].title_keywords, vec!["estimate review"]);
    assert_eq!(rules[0].workflow_kind, "ccc");
    train_current_context_as_ccc(&mut rules, "chrome.exe", "Estimate Review - Google Chrome", 200);
    assert_eq!(rules.len(), 1);
}

#[test]
fn training_for_a_workflow() {
    assert_eq!(workflow_for_training(" Tesla EPC ").unwrap(), "tesla_epc");
    assert_eq!(
        workflow_for_training("foo").err().as_deref(),
        Some("Unknown workflow: foo. Use: ccc, tesla_epc, parts_trader, ops_trax, generic")
    );
    let mut rules = Vec::new();
    let m = train_current_context_for_workflow(&mut rules, "chrome.exe", "EPC Catalog", "Tesla EPC", 7).unwrap();
    assert_eq!(m, "Trained tesla_epc pattern: epc catalog");
    assert_eq!(rules[0].id, "trained_tesla_epc_7");
    assert_eq!(rules[0].workflow_kind, "tesla_epc");
    let m = train_current_context_for_workflow(&mut rules, "chrome.exe", "Workfile", "CCC", 8).unwrap();
    assert_eq!(m, "Trained CCC pattern: workfile");
    assert_eq!(rules.len(), 2);
    assert!(train_current_context_for_workflow(&mut rules, "a", "b", "nope", 9).is_err());
    assert_eq!(rules.len(), 2);
}

#[test]
fn forgetting_and_excluding() {
    let mut rules = vec![
        rule("ccc_trained_1", &["chrome"], &["estimate"]),
        rule("trained_generic_2", &[], &["invoice"]),
        rule("ccc_builtin", &[], &["estimate"]),
    ];
    let m = forget_trained_rules_for_current_context(&mut rules, "Chrome.exe", "Estimate 12");
    assert_eq!(m, "Removed 1 trained pattern(s) for this app/title.");
    let ids: Vec<&str> = rules.iter().map(|r| r.id.as_str()).collect();
    assert_eq!(ids, vec!["trained_generic_2", "ccc_builtin"]);
    let m = forget_trained_rules_for_current_context(&mut rules, "Chrome.exe", "Estimate 12");
    assert_eq!(m, "No matching trained rules to remove.");

    let mut ex = Vec::new();
    let m = exclude_current_context_from_ccc(&mut ex, "chrome.exe", "Facebook - Google Chrome", 5);
    assert_eq!(m, "This window will not match CCC (excluded): facebook");
    assert_eq!(ex[0].id, "ccc_exclude_5");
    assert_eq!(ex[0].cooldown_secs, 0);
    exclude_current_context_from_ccc(&mut ex, "chrome.exe", "Facebook - Google Chrome", 6);
    assert_eq!(ex.len(), 1);
    let m = clear_exclude_rules_for_current_context(&mut ex, "chrome.exe", "Facebook");
    assert_eq!(m, "Removed 1 exclude rule(s) for this app/title.");
    assert!(ex.is_empty());
    assert_eq!(
        clear_exclude_rules_for_current_context(&mut ex, "chrome.exe", "Facebook"),
        "No matching exclude rules to remove."
    );
}

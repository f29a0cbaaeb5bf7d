use uce::context_rules::{
    all_built_in_rules, candidate_patterns, classify_context, known_rule_by_id, known_rules,
    match_rules, preferred_capture_mode_for_rule, rule_matches_exec,
    sticky_browser_eligible_rule_id, vendor_workflow_rules, workflow_kind_from_rule_id,
};
use uce::context_tracker::{classify_current_context, decide_context, first_matching_rule};
use uce::types::{bump_candidate_count, clone_strings, ContextBucket, RecentMemory, Rule};

fn chars(s: &str) -> Vec<char> {
    s.chars().collect()
}

fn rule(id: &str, app: &[&str], title: &[&str], title_all: &[&str], priority: u8) -> Rule {
    Rule {
        id: id.to_string(),
        app_keywords: app.iter().map(|s| s.to_string()).collect(),
        title_keywords: title.iter().map(|s| s.to_string()).collect(),
        title_keywords_all: title_all.iter().map(|s| s.to_string()).collect(),
        priority,
        cooldown_secs: 8,
        workflow_kind: "generic".to_string(),
    }
}

#[test]
fn built_in_rule_tables() {
    let known = known_rules();
    let ids: Vec<&str> = known.iter().map(|r| r.id.as_str()).collect();
    assert_eq!(ids, vec!["ccc_estimate", "ccc_supplement", "ccc_final_bill", "ccc_open"]);
    assert!(known.iter().all(|r| r.workflow_kind == "ccc" && r.cooldown_secs == 8));
    let vendor = vendor_workflow_rules();
    let vids: Vec<&str> = vendor.iter().map(|r| r.id.as_str()).collect();
    assert_eq!(vids, vec!["tesla_epc_catalog", "partstrader_open", "ops_trax_open"]);
    assert_eq!(vendor[0].title_keywords_all, vec!["tesla".to_string(), "epc".to_string()]);
    let cand = candidate_patterns();
    assert_eq!(cand.len(), 2);
    assert_eq!(cand[0].id, "workflow_portal_candidate");
    assert_eq!(cand[1].id, "email_candidate");
    assert_eq!(all_built_in_rules().len(), 7);
}

#[test]
fn rule_lookup_by_id() {
    let r = known_rule_by_id("partstrader_open").expect("vendor rule");
    assert_eq!(r.priority, 11);
    assert_eq!(r.workflow_kind, "parts_trader");
    assert_eq!(known_rule_by_id("ccc_open").unwrap().priority, 4);
    assert!(known_rule_by_id("email_candidate").is_none());
    assert!(known_rule_by_id("nope").is_none());
}

#[test]
fn classification_prefers_lowest_priority_ccc_rule() {
    let c = classify_context("chrome.exe", "ccc one - repair order 1234");
    assert_eq!(c.bucket, ContextBucket::Known);
    assert_eq!(c.rule_id, "ccc_estimate");
    assert_eq!(c.reason, "title");
    assert_eq!(c.cooldown_secs, 8);
    assert!(c.action_allowed);
    assert_eq!(c.rule_source, "local");
}

#[test]
fn classification_vendor_candidate_and_unknown() {
    let t = classify_context("msedge.exe", "tesla parts epc - model 3");
    assert_eq!(t.bucket, ContextBucket::Known);
    assert_eq!(t.rule_id, "tesla_epc_catalog");
    assert_eq!(t.reason, "title_all");
    // Only one of the two "all" keywords: no vendor match; the browser portal title is a candidate.
    let c = classify_context("chrome.exe", "tesla portal");
    assert_eq!(c.bucket, ContextBucket::Candidate);
    assert_eq!(c.rule_id, "workflow_portal_candidate");
    assert_eq!(c.reason, "app+title");
    assert_eq!(c.cooldown_secs, 0);
    assert!(!c.action_allowed);
    let u = classify_context("notepad.exe", "untitled");
    assert_eq!(u.bucket, ContextBucket::Unknown);
    assert_eq!(u.rule_id, "none");
    assert_eq!(u.reason, "none");
    assert!(!u.action_allowed);
}

#[test]
fn current_context_is_compared_in_lower_case() {
    let c = classify_current_context("CHROME.EXE", "OPS TRAX Dashboard");
    assert_eq!(c.rule_id, "ops_trax_open");
    assert!(c.action_allowed);
}

#[test]
fn matching_helpers() {
    let rules = vec![
        rule("low", &["word"], &[], &[], 9),
        rule("high", &[], &["invoice"], &[], 1),
        rule("all", &[], &[], &["a", "b"], 5),
    ];
    let app = chars("winword.exe");
    let title = chars("invoice a b");
    assert!(rule_matches_exec(&app, &title, &rules[0]));
    assert!(rule_matches_exec(&app, &title, &rules[2]));
    assert!(!rule_matches_exec(&app, &chars("a only"), &rules[2]));
    assert_eq!(match_rules(&app, &title, &rules), Some(1));
    assert_eq!(first_matching_rule(&app, &title, &rules), Some(0));
    assert_eq!(match_rules(&chars("x"), &chars("y"), &rules), None);
    assert_eq!(first_matching_rule(&chars("x"), &chars("y"), &rules), None);
}

#[test]
fn workflow_kinds_and_capture_modes() {
    assert_eq!(workflow_kind_from_rule_id("CCC_Estimate"), "ccc");
    assert_eq!(workflow_kind_from_rule_id("ccc_exclude_17"), "excluded");
    assert_eq!(workflow_kind_from_rule_id("excluded"), "excluded");
    assert_eq!(workflow_kind_from_rule_id("none"), "unknown");
    assert_eq!(workflow_kind_from_rule_id("tesla_epc_catalog"), "tesla_epc");
    assert_eq!(workflow_kind_from_rule_id("parts_trader_x"), "parts_trader");
    assert_eq!(workflow_kind_from_rule_id("opstrax_x"), "ops_trax");
    assert_eq!(workflow_kind_from_rule_id("trained_tesla_epc_1700000000"), "tesla_epc");
    assert_eq!(workflow_kind_from_rule_id("trained_x_abc"), "unknown");
    assert_eq!(workflow_kind_from_rule_id("whatever"), "unknown");
    assert_eq!(preferred_capture_mode_for_rule("ccc_open"), "pdf");
    assert_eq!(preferred_capture_mode_for_rule("ops_trax_open"), "screenshot");
    assert!(sticky_browser_eligible_rule_id("partstrader_open"));
    assert!(!sticky_browser_eligible_rule_id("none"));
    assert!(!sticky_browser_eligible_rule_id("ccc_exclude_1"));
    assert!(!sticky_browser_eligible_rule_id("random_rule"));
}

#[test]
fn decide_known_then_cooldown() {
    let mut mem = RecentMemory::default();
    let custom: Vec<Rule> = Vec::new();
    let exclude: Vec<Rule> = Vec::new();
    let d = decide_context("chrome.exe", "CCC ONE Estimate", &custom, &exclude, &mut mem, 1_000);
    assert!(d.context.matched);
    assert_eq!(d.context.matched_rule, "ccc_estimate");
    assert_eq!(d.context.workflow_kind, "ccc");
    assert_eq!(d.context.preferred_capture_mode, "pdf");
    assert_eq!(d.context.bucket, ContextBucket::Known);
    assert!(d.context.changed);
    assert!(!d.context.in_cooldown);
    assert!(d.candidate.is_none());
    assert_eq!(mem.last_reaction_time_unix_ms, Some(1_000));
    assert_eq!(mem.last_bucket, "known");
    assert_eq!(mem.last_context_key, "chrome.exe|ccc one estimate");

    let d2 = decide_context("chrome.exe", "CCC ONE Estimate", &custom, &exclude, &mut mem, 2_000);
    assert!(!d2.context.changed);
    assert!(d2.context.in_cooldown);
    assert_eq!(mem.last_reaction_time_unix_ms, Some(1_000));

    let d3 = decide_context("chrome.exe", "CCC ONE Estimate", &custom, &exclude, &mut mem, 9_500);
    assert!(!d3.context.in_cooldown);
    assert_eq!(mem.last_reaction_time_unix_ms, Some(9_500));
}

#[test]
fn decide_counts_unknown_candidates() {
    let mut mem = RecentMemory::default();
    let custom: Vec<Rule> = Vec::new();
    let exclude: Vec<Rule> = Vec::new();
    let d = decide_context("Notepad.exe", "Untitled", &custom, &exclude, &mut mem, 5);
    assert!(!d.context.matched);
    assert_eq!(d.context.matched_rule, "none");
    assert_eq!(d.context.workflow_kind, "unknown");
    assert_eq!(d.context.preferred_capture_mode, "screenshot");
    let c = d.candidate.expect("candidate sighting");
    assert_eq!(c.seen_count, 1);
    assert_eq!(c.context_key, "notepad.exe|untitled");
    assert_eq!(c.bucket, "unknown");
    assert_eq!(c.rule_id, "none");
    // Same window again: not changed, so nothing is counted.
    let d2 = decide_context("Notepad.exe", "Untitled", &custom, &exclude, &mut mem, 6);
    assert!(d2.candidate.is_none());
    // A new title counts, then the old one again counts a second time.
    let _ = decide_context("Notepad.exe", "Other", &custom, &exclude, &mut mem, 7);
    let d4 = decide_context("Notepad.exe", "Untitled", &custom, &exclude, &mut mem, 8);
    assert_eq!(d4.candidate.unwrap().seen_count, 2);
}

#[test]
fn decide_trained_sticky_and_excluded() {
    let mut mem = RecentMemory::default();
    let custom = vec![rule("trained_parts_trader_1700000000", &["chrome"], &["quote"], &[], 1)];
    let exclude: Vec<Rule> = Vec::new();
    let d = decide_context("chrome.exe", "Quote 55", &custom, &exclude, &mut mem, 100);
    assert!(d.context.matched);
    assert_eq!(d.context.matched_rule, "trained_parts_trader_1700000000");
    assert_eq!(d.context.workflow_kind, "parts_trader");
    // The browser title flickers to something unknown within 20 s: the trained rule sticks.
    let d2 = decide_context("chrome.exe", "New Tab", &custom, &exclude, &mut mem, 5_100);
    assert!(d2.context.matched);
    assert_eq!(d2.context.matched_rule, "trained_parts_trader_1700000000");
    // An exclude rule wins over everything.
    let exclude = vec![rule("ccc_exclude_1", &[], &["quote"], &[], 1)];
    let d3 = decide_context("chrome.exe", "Quote 55", &custom, &exclude, &mut mem, 5_200);
    assert!(!d3.context.matched);
    assert_eq!(d3.context.matched_rule, "excluded");
    assert_eq!(d3.context.bucket, ContextBucket::Unknown);
}

#[test]
fn candidate_count_bumps_and_copies() {
    let mut counts: Vec<(String, u32)> = Vec::new();
    assert_eq!(bump_candidate_count(&mut counts, "a"), 1);
    assert_eq!(bump_candidate_count(&mut counts, "b"), 1);
    assert_eq!(bump_candidate_count(&mut counts, "a"), 2);
    assert_eq!(counts.len(), 2);
    let mut full = vec![("x".to_string(), u32::MAX)];
    assert_eq!(bump_candidate_count(&mut full, "x"), 0);
    let v = vec!["p".to_string(), "q".to_string()];
    assert_eq!(clone_strings(&v), v);
    let r = rule("r1", &["a"], &["b"], &["c"], 3);
    let d = r.duplicate();
    assert_eq!(d.id, "r1");
    assert_eq!(d.app_keywords, r.app_keywords);
    assert_eq!(d.title_keywords_all, r.title_keywords_all);
    assert_eq!(d.priority, 3);
}

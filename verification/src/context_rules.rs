//! Built-in window rules and the classification of the foreground window, plus the
//! mapping from rule ids to workflow kinds and capture modes.
use vstd::prelude::*;
use crate::text::{
    all_digits, all_digits_exec, chars_of, contains_chars, eq_str, has_sub, last_index,
    lower_chars, rfind_char, slice_chars, starts_with, starts_with_str, string_of,
    unicode_lower, views,
};
use crate::types::{ContextBucket, ContextClassification, Rule, RuleView, rule_views};

verus! {

pub open spec fn rv(
    id: Seq<char>,
    app: Seq<Seq<char>>,
    title: Seq<Seq<char>>,
    title_all: Seq<Seq<char>>,
    priority: u8,
    cooldown: u64,
    wf: Seq<char>,
) -> RuleView {
    RuleView {
        id,
        app_keywords: app,
        title_keywords: title,
        title_keywords_all: title_all,
        priority,
        cooldown_secs: cooldown,
        workflow_kind: wf,
    }
}

fn push_str(v: &mut Vec<String>, s: &str)
    ensures
        views(final(v)@) == views(old(v)@).push(s@),
{
    let ghost prev = v@;
    v.push(String::from_str(s));
    assert(views(v@) =~= views(prev).push(s@));
}

fn mk_rule(
    id: &str,
    app: Vec<String>,
    title: Vec<String>,
    title_all: Vec<String>,
    priority: u8,
    cooldown: u64,
    wf: &str,
) -> (r: Rule)
    ensures
        r@ == rv(id@, views(app@), views(title@), views(title_all@), priority, cooldown, wf@),
{
    Rule {
        id: String::from_str(id),
        app_keywords: app,
        title_keywords: title,
        title_keywords_all: title_all,
        priority,
        cooldown_secs: cooldown,
        workflow_kind: String::from_str(wf),
    }
}

/// The built-in CCC rules.
pub open spec fn known_rules_spec() -> Seq<RuleView> {
    seq![
        rv("ccc_estimate"@, seq![], seq!["ccc"@, "ccc one"@, "cccone"@, "estimate"@], seq![], 1, 8, "ccc"@),
        rv("ccc_supplement"@, seq![], seq!["ccc"@, "ccc one"@, "cccone"@, "supplement"@], seq![], 2, 8, "ccc"@),
        rv("ccc_final_bill"@, seq![], seq!["ccc"@, "ccc one"@, "cccone"@, "final bill"@], seq![], 3, 8, "ccc"@),
        rv("ccc_open"@, seq![], seq!["ccc"@, "ccc one"@, "cccone"@, "repair order"@, "ro "@, "ro#"@, "ro-"@], seq![], 4, 8, "ccc"@),
    ]
}

/// Browser / desktop titles of non-CCC shop systems (lower priority than CCC).
pub open spec fn vendor_rules_spec() -> Seq<RuleView> {
    seq![
        rv("tesla_epc_catalog"@, seq![], seq![], seq!["tesla"@, "epc"@], 10, 8, "tesla_epc"@),
        rv("partstrader_open"@, seq![], seq!["partstrader"@, "parts trader"@], seq![], 11, 8, "parts_trader"@),
        rv("ops_trax_open"@, seq![], seq!["ops trax"@, "opstrax"@], seq![], 12, 8, "ops_trax"@),
    ]
}

/// Patterns that only mark a window as a candidate.
pub open spec fn candidate_rules_spec() -> Seq<RuleView> {
    seq![
        rv("workflow_portal_candidate"@, seq!["chrome"@, "msedge"@, "firefox"@], seq!["portal"@, "workflow"@], seq![], 1, 0, ""@),
        rv("email_candidate"@, seq!["outlook"@, "chrome"@, "msedge"@], seq!["inbox"@, "mail"@], seq![], 2, 0, ""@),
    ]
}

/// The built-in CCC rules.
pub fn known_rules() -> (r: Vec<Rule>)
    ensures
        rule_views(r@) == known_rules_spec(),
{
    let mut r: Vec<Rule> = Vec::new();
    {
        let mut app: Vec<String> = Vec::new();
        assert(views(app@) =~= seq![]);
        let mut title: Vec<String> = Vec::new();
        push_str(&mut title, "ccc");
        push_str(&mut title, "ccc one");
        push_str(&mut title, "cccone");
        push_str(&mut title, "estimate");
        assert(views(title@) =~= seq!["ccc"@, "ccc one"@, "cccone"@, "estimate"@]);
        let mut title_all: Vec<String> = Vec::new();
        assert(views(title_all@) =~= seq![]);
        let ghost prev = r@;
        r.push(mk_rule("ccc_estimate", app, title, title_all, 1, 8, "ccc"));
        assert(rule_views(r@) =~= rule_views(prev).push(r@[0]@));
    }
    {
        let mut app: Vec<String> = Vec::new();
        assert(views(app@) =~= seq![]);
        let mut title: Vec<String> = Vec::new();
        push_str(&mut title, "ccc");
        push_str(&mut title, "ccc one");
        push_str(&mut title, "cccone");
        push_str(&mut title, "supplement");
        assert(views(title@) =~= seq!["ccc"@, "ccc one"@, "cccone"@, "supplement"@]);
        let mut title_all: Vec<String> = Vec::new();
        assert(views(title_all@) =~= seq![]);
        let ghost prev = r@;
        r.push(mk_rule("ccc_supplement", app, title, title_all, 2, 8, "ccc"));
        assert(rule_views(r@) =~= rule_views(prev).push(r@[1]@));
    }
    {
        let mut app: Vec<String> = Vec::new();
        assert(views(app@) =~= seq![]);
        let mut title: Vec<String> = Vec::new();
        push_str(&mut title, "ccc");
        push_str(&mut title, "ccc one");
        push_str(&mut title, "cccone");
        push_str(&mut title, "final bill");
        assert(views(title@) =~= seq!["ccc"@, "ccc one"@, "cccone"@, "final bill"@]);
        let mut title_all: Vec<String> = Vec::new();
        assert(views(title_all@) =~= seq![]);
        let ghost prev = r@;
        r.push(mk_rule("ccc_final_bill", app, title, title_all, 3, 8, "ccc"));
        assert(rule_views(r@) =~= rule_views(prev).push(r@[2]@));
    }
    {
        let mut app: Vec<String> = Vec::new();
        assert(views(app@) =~= seq![]);
        let mut title: Vec<String> = Vec::new();
        push_str(&mut title, "ccc");
        push_str(&mut title, "ccc one");
        push_str(&mut title, "cccone");
        push_str(&mut title, "repair order");
        push_str(&mut title, "ro ");
        push_str(&mut title, "ro#");
        push_str(&mut title, "ro-");
        assert(views(title@) =~= seq!["ccc"@, "ccc one"@, "cccone"@, "repair order"@, "ro "@, "ro#"@, "ro-"@]);
        let mut title_all: Vec<String> = Vec::new();
        assert(views(title_all@) =~= seq![]);
        let ghost prev = r@;
        r.push(mk_rule("ccc_open", app, title, title_all, 4, 8, "ccc"));
        assert(rule_views(r@) =~= rule_views(prev).push(r@[3]@));
    }
    assert(rule_views(r@) =~= known_rules_spec());
    r
}

/// Browser / desktop titles for non-CCC shop systems (screenshot-first). Lower priority than CCC rules.
pub fn vendor_workflow_rules() -> (r: Vec<Rule>)
    ensures
        rule_views(r@) == vendor_rules_spec(),
{
    let mut r: Vec<Rule> = Vec::new();
    {
        let mut app: Vec<String> = Vec::new();
        assert(views(app@) =~= seq![]);
        let mut title: Vec<String> = Vec::new();
        assert(views(title@) =~= seq![]);
        let mut title_all: Vec<String> = Vec::new();
        push_str(&mut title_all, "tesla");
        push_str(&mut title_all, "epc");
        assert(views(title_all@) =~= seq!["tesla"@, "epc"@]);
        let ghost prev = r@;
        r.push(mk_rule("tesla_epc_catalog", app, title, title_all, 10, 8, "tesla_epc"));
        assert(rule_views(r@) =~= rule_views(prev).push(r@[0]@));
    }
    {
        let mut app: Vec<String> = Vec::new();
        assert(views(app@) =~= seq![]);
        let mut title: Vec<String> = Vec::new();
        push_str(&mut title, "partstrader");
        push_str(&mut title, "parts trader");
        assert(views(title@) =~= seq!["partstrader"@, "parts trader"@]);
        let mut title_all: Vec<String> = Vec::new();
        assert(views(title_all@) =~= seq![]);
        let ghost prev = r@;
        r.push(mk_rule("partstrader_open", app, title, title_all, 11, 8, "parts_trader"));
        assert(rule_views(r@) =~= rule_views(prev).push(r@[1]@));
    }
    {
        let mut app: Vec<String> = Vec::new();
        assert(views(app@) =~= seq![]);
        let mut title: Vec<String> = Vec::new();
        push_str(&mut title, "ops trax");
        push_str(&mut title, "opstrax");
        assert(views(title@) =~= seq!["ops trax"@, "opstrax"@]);
        let mut title_all: Vec<String> = Vec::new();
        assert(views(title_all@) =~= seq![]);
        let ghost prev = r@;
        r.push(mk_rule("ops_trax_open", app, title, title_all, 12, 8, "ops_trax"));
        assert(rule_views(r@) =~= rule_views(prev).push(r@[2]@));
    }
    assert(rule_views(r@) =~= vendor_rules_spec());
    r
}

/// Patterns that mark a window as a candidate context (no action).
pub fn candidate_patterns() -> (r: Vec<Rule>)
    ensures
        rule_views(r@) == candidate_rules_spec(),
{
    let mut r: Vec<Rule> = Vec::new();
    {
        let mut app: Vec<String> = Vec::new();
        push_str(&mut app, "chrome");
        push_str(&mut app, "msedge");
        push_str(&mut app, "firefox");
        assert(views(app@) =~= seq!["chrome"@, "msedge"@, "firefox"@]);
        let mut title: Vec<String> = Vec::new();
        push_str(&mut title, "portal");
        push_str(&mut title, "workflow");
        assert(views(title@) =~= seq!["portal"@, "workflow"@]);
        let mut title_all: Vec<String> = Vec::new();
        assert(views(title_all@) =~= seq![]);
        let ghost prev = r@;
        r.push(mk_rule("workflow_portal_candidate", app, title, title_all, 1, 0, ""));
        assert(rule_views(r@) =~= rule_views(prev).push(r@[0]@));
    }
    {
        let mut app: Vec<String> = Vec::new();
        push_str(&mut app, "outlook");
        push_str(&mut app, "chrome");
        push_str(&mut app, "msedge");
        assert(views(app@) =~= seq!["outlook"@, "chrome"@, "msedge"@]);
        let mut title: Vec<String> = Vec::new();
        push_str(&mut title, "inbox");
        push_str(&mut title, "mail");
        assert(views(title@) =~= seq!["inbox"@, "mail"@]);
        let mut title_all: Vec<String> = Vec::new();
        assert(views(title_all@) =~= seq![]);
        let ghost prev = r@;
        r.push(mk_rule("email_candidate", app, title, title_all, 2, 0, ""));
        assert(rule_views(r@) =~= rule_views(prev).push(r@[1]@));
    }
    assert(rule_views(r@) =~= candidate_rules_spec());
    r
}


/// Built-in CCC rules followed by the vendor workflow rules.
pub fn all_built_in_rules() -> (r: Vec<Rule>)
    ensures
        rule_views(r@) == known_rules_spec() + vendor_rules_spec(),
{
    let mut v = known_rules();
    let w = vendor_workflow_rules();
    let mut i: usize = 0;
    let ghost base = v@;
    while i < w.len()
        invariant
            i <= w.len(),
            rule_views(w@) == vendor_rules_spec(),
            rule_views(base) == known_rules_spec(),
            rule_views(v@) == rule_views(base) + rule_views(w@).take(i as int),
        decreases w.len() - i,
    {
        let ghost prev = v@;
        v.push(w[i].duplicate());
        assert(rule_views(v@) =~= rule_views(prev).push(w@[i as int]@));
        assert(rule_views(w@).take(i + 1) =~= rule_views(w@).take(i as int).push(w@[i as int]@));
        i = i + 1;
    }
    assert(rule_views(w@).take(w.len() as int) =~= rule_views(w@));
    v
}

/// Among the first `k` rules, the index of the first whose id is `id`.
pub open spec fn first_id_upto(rules: Seq<RuleView>, id: Seq<char>, k: int) -> Option<int>
    decreases k,
{
    if k <= 0 {
        None
    } else {
        match first_id_upto(rules, id, k - 1) {
            Some(i) => Some(i),
            None => if rules[k - 1].id == id {
                Some(k - 1)
            } else {
                None
            },
        }
    }
}

/// The built-in rule (CCC, then vendor) whose id is `id`.
pub open spec fn builtin_by_id(id: Seq<char>) -> Option<RuleView> {
    let all = known_rules_spec() + vendor_rules_spec();
    match first_id_upto(all, id, all.len() as int) {
        Some(i) => Some(all[i]),
        None => None,
    }
}

pub open spec fn opt_rule_view(r: Option<Rule>) -> Option<RuleView> {
    match r {
        Some(x) => Some(x@),
        None => None,
    }
}

/// The built-in rule (CCC or vendor) with id `rule_id`, if any.
pub fn known_rule_by_id(rule_id: &str) -> (r: Option<Rule>)
    ensures
        opt_rule_view(r) == builtin_by_id(rule_id@),
{
    let all = all_built_in_rules();
    let want = chars_of(rule_id);
    let ghost allv = known_rules_spec() + vendor_rules_spec();
    let mut i: usize = 0;
    while i < all.len()
        invariant
            i <= all.len(),
            want@ == rule_id@,
            rule_views(all@) == allv,
            allv == known_rules_spec() + vendor_rules_spec(),
            first_id_upto(allv, rule_id@, i as int) is None,
        decreases all.len() - i,
    {
        let idv = chars_of(all[i].id.as_str());
        assert(allv[i as int] == all@[i as int]@);
        if crate::text::chars_eq(idv.as_slice(), want.as_slice()) {
            let ghost k = allv.len() as int;
            proof {
                lemma_first_id_stays(allv, rule_id@, i as int, k);
            }
            return Some(all[i].duplicate());
        }
        i = i + 1;
    }
    None
}

proof fn lemma_first_id_stays(rules: Seq<RuleView>, id: Seq<char>, i: int, k: int)
    requires
        0 <= i < k <= rules.len(),
        first_id_upto(rules, id, i + 1) == Some(i),
    ensures
        first_id_upto(rules, id, k) == Some(i),
    decreases k - i,
{
    if k > i + 1 {
        lemma_first_id_stays(rules, id, i, k - 1);
    }
}

// ---------------------------------------------------------------------------
// Matching
// ---------------------------------------------------------------------------

pub open spec fn any_kw(hay: Seq<char>, kws: Seq<Seq<char>>) -> bool {
    exists|i: int| 0 <= i < kws.len() && has_sub(hay, #[trigger] kws[i])
}

pub open spec fn all_kw(hay: Seq<char>, kws: Seq<Seq<char>>) -> bool {
    forall|i: int| 0 <= i < kws.len() ==> has_sub(hay, #[trigger] kws[i])
}

/// A rule matches when one of its app keywords is in the app name (or it has none) and
/// its title condition holds: all of `title_keywords_all` when given, else one of
/// `title_keywords` (or none given).
pub open spec fn rule_matches(app: Seq<char>, title: Seq<char>, r: RuleView) -> bool {
    &&& (r.app_keywords.len() == 0 || any_kw(app, r.app_keywords))
    &&& if r.title_keywords_all.len() > 0 {
        all_kw(title, r.title_keywords_all)
    } else if r.title_keywords.len() == 0 {
        true
    } else {
        any_kw(title, r.title_keywords)
    }
}

pub open spec fn match_reason(r: RuleView) -> Seq<char> {
    let has_title = r.title_keywords.len() > 0 || r.title_keywords_all.len() > 0;
    if r.app_keywords.len() > 0 && has_title {
        "app+title"@
    } else if r.app_keywords.len() > 0 {
        "app"@
    } else if r.title_keywords_all.len() > 0 {
        "title_all"@
    } else {
        "title"@
    }
}

/// Among the first `k` rules, the matching one that comes first in priority order
/// (ties keep list order).
pub open spec fn best_upto(rules: Seq<RuleView>, app: Seq<char>, title: Seq<char>, k: int) -> Option<
    int,
>
    decreases k,
{
    if k <= 0 {
        None
    } else {
        let prev = best_upto(rules, app, title, k - 1);
        if rule_matches(app, title, rules[k - 1]) && (prev is None || rules[k - 1].priority
            < rules[prev->0].priority) {
            Some(k - 1)
        } else {
            prev
        }
    }
}

pub open spec fn best_match(rules: Seq<RuleView>, app: Seq<char>, title: Seq<char>) -> Option<int> {
    best_upto(rules, app, title, rules.len() as int)
}

fn any_kw_exec(hay: &[char], kws: &Vec<String>) -> (b: bool)
    ensures
        b == any_kw(hay@, views(kws@)),
{
    let mut i: usize = 0;
    while i < kws.len()
        invariant
            i <= kws.len(),
            forall|j: int| 0 <= j < i ==> !has_sub(hay@, #[trigger] views(kws@)[j]),
        decreases kws.len() - i,
    {
        let k = chars_of(kws[i].as_str());
        if contains_chars(hay, k.as_slice()) {
            assert(views(kws@)[i as int] == k@);
            return true;
        }
        i = i + 1;
    }
    false
}

fn all_kw_exec(hay: &[char], kws: &Vec<String>) -> (b: bool)
    ensures
        b == all_kw(hay@, views(kws@)),
{
    let mut i: usize = 0;
    while i < kws.len()
        invariant
            i <= kws.len(),
            forall|j: int| 0 <= j < i ==> has_sub(hay@, #[trigger] views(kws@)[j]),
        decreases kws.len() - i,
    {
        let k = chars_of(kws[i].as_str());
        if !contains_chars(hay, k.as_slice()) {
            assert(views(kws@)[i as int] == k@);
            return false;
        }
        i = i + 1;
    }
    true
}

/// Whether `rule` matches the (lower-cased) app name and window title.
pub fn rule_matches_exec(app: &[char], title: &[char], rule: &Rule) -> (b: bool)
    ensures
        b == rule_matches(app@, title@, rule@),
{
    let app_match = rule.app_keywords.len() == 0 || any_kw_exec(app, &rule.app_keywords);
    let title_match = if rule.title_keywords_all.len() > 0 {
        all_kw_exec(title, &rule.title_keywords_all)
    } else if rule.title_keywords.len() == 0 {
        true
    } else {
        any_kw_exec(title, &rule.title_keywords)
    };
    app_match && title_match
}

fn match_reason_exec(rule: &Rule) -> (r: String)
    ensures
        r@ == match_reason(rule@),
{
    let has_title = rule.title_keywords.len() > 0 || rule.title_keywords_all.len() > 0;
    if rule.app_keywords.len() > 0 && has_title {
        String::from_str("app+title")
    } else if rule.app_keywords.len() > 0 {
        String::from_str("app")
    } else if rule.title_keywords_all.len() > 0 {
        String::from_str("title_all")
    } else {
        String::from_str("title")
    }
}

/// The rule that matches first in priority order, if any.
pub fn match_rules(app: &[char], title: &[char], rules: &Vec<Rule>) -> (r: Option<usize>)
    ensures
        match r {
            Some(i) => i < rules@.len() && best_match(rule_views(rules@), app@, title@) == Some(
                i as int,
            ),
            None => best_match(rule_views(rules@), app@, title@) is None,
        },
{
    let ghost rv = rule_views(rules@);
    let mut best: Option<usize> = None;
    let mut k: usize = 0;
    while k < rules.len()
        invariant
            k <= rules.len(),
            rv == rule_views(rules@),
            match best {
                Some(i) => best_upto(rv, app@, title@, k as int) == Some(i as int) && i < k,
                None => best_upto(rv, app@, title@, k as int) is None,
            },
        decreases rules.len() - k,
    {
        assert(rv[k as int] == rules@[k as int]@);
        if rule_matches_exec(app, title, &rules[k]) {
            match best {
                None => {
                    best = Some(k);
                },
                Some(b) => {
                    assert(rv[b as int] == rules@[b as int]@);
                    if rules[k].priority < rules[b].priority {
                        best = Some(k);
                    }
                },
            }
        }
        k = k + 1;
    }
    best
}

// ---------------------------------------------------------------------------
// Classification
// ---------------------------------------------------------------------------

/// Classification as plain values: bucket, rule id, reason, cooldown, action allowed.
pub open spec fn classify_spec(app: Seq<char>, title: Seq<char>) -> (
    ContextBucket,
    Seq<char>,
    Seq<char>,
    u64,
    bool,
) {
    match best_match(known_rules_spec(), app, title) {
        Some(i) => (
            ContextBucket::Known,
            known_rules_spec()[i].id,
            match_reason(known_rules_spec()[i]),
            known_rules_spec()[i].cooldown_secs,
            true,
        ),
        None => match best_match(vendor_rules_spec(), app, title) {
            Some(i) => (
                ContextBucket::Known,
                vendor_rules_spec()[i].id,
                match_reason(vendor_rules_spec()[i]),
                vendor_rules_spec()[i].cooldown_secs,
                true,
            ),
            None => match best_match(candidate_rules_spec(), app, title) {
                Some(i) => (
                    ContextBucket::Candidate,
                    candidate_rules_spec()[i].id,
                    match_reason(candidate_rules_spec()[i]),
                    0,
                    false,
                ),
                None => (ContextBucket::Unknown, "none"@, "none"@, 0, false),
            },
        },
    }
}

pub open spec fn classification_is(
    c: ContextClassification,
    v: (ContextBucket, Seq<char>, Seq<char>, u64, bool),
) -> bool {
    &&& c.bucket == v.0
    &&& c.rule_id@ == v.1
    &&& c.reason@ == v.2
    &&& c.cooldown_secs == v.3
    &&& c.action_allowed == v.4
    &&& c.rule_source@ == "local"@
}

fn classification_from(rule: &Rule, bucket: ContextBucket, cooldown: u64, allowed: bool) -> (r:
    ContextClassification)
    ensures
        classification_is(r, (bucket, rule@.id, match_reason(rule@), cooldown, allowed)),
{
    ContextClassification {
        bucket,
        rule_id: rule.id.clone(),
        reason: match_reason_exec(rule),
        cooldown_secs: cooldown,
        action_allowed: allowed,
        rule_source: String::from_str("local"),
    }
}

fn classify_chars(app: &[char], title: &[char]) -> (r: ContextClassification)
    ensures
        classification_is(r, classify_spec(app@, title@)),
{
    let known = known_rules();
    if let Some(i) = match_rules(app, title, &known) {
        assert(rule_views(known@)[i as int] == known@[i as int]@);
        return classification_from(&known[i], ContextBucket::Known, known[i].cooldown_secs, true);
    }
    let vendor = vendor_workflow_rules();
    if let Some(i) = match_rules(app, title, &vendor) {
        assert(rule_views(vendor@)[i as int] == vendor@[i as int]@);
        return classification_from(&vendor[i], ContextBucket::Known, vendor[i].cooldown_secs, true);
    }
    let cand = candidate_patterns();
    if let Some(i) = match_rules(app, title, &cand) {
        assert(rule_views(cand@)[i as int] == cand@[i as int]@);
        return classification_from(&cand[i], ContextBucket::Candidate, 0, false);
    }
    ContextClassification {
        bucket: ContextBucket::Unknown,
        rule_id: String::from_str("none"),
        reason: String::from_str("none"),
        cooldown_secs: 0,
        action_allowed: false,
        rule_source: String::from_str("local"),
    }
}

/// Classifies an (already lower-cased) app name and window title: built-in CCC rules first,
/// then vendor workflow rules (both `Known`, action allowed), then candidate patterns
/// (`Candidate`), else `Unknown` with rule id `none`.
pub fn classify_context(app_name_lower: &str, title_lower: &str) -> (r: ContextClassification)
    ensures
        classification_is(r, classify_spec(app_name_lower@, title_lower@)),
{
    let app = chars_of(app_name_lower);
    let title = chars_of(title_lower);
    classify_chars(app.as_slice(), title.as_slice())
}

// ---------------------------------------------------------------------------
// Workflow kinds
// ---------------------------------------------------------------------------

/// The workflow named by a `trained_<workflow>_<digits>` id (after `trained_`), if any.
pub open spec fn trained_workflow(rest: Seq<char>) -> Option<Seq<char>> {
    match last_index(rest, '_') {
        None => None,
        Some(end) => {
            let ts = rest.subrange(end + 1, rest.len() as int);
            let wf = rest.subrange(0, end);
            if all_digits(ts) && ts.len() > 0 && wf.len() > 0 {
                Some(wf)
            } else {
                None
            }
        },
    }
}

/// Workflow kind of a (lower-cased) rule id.
pub open spec fn workflow_kind_lower(id: Seq<char>) -> Seq<char> {
    if id == "none"@ {
        "unknown"@
    } else if id == "excluded"@ {
        "excluded"@
    } else if starts_with(id, "ccc_exclude_"@) {
        "excluded"@
    } else if starts_with(id, "ccc_trained"@) {
        "ccc"@
    } else if starts_with(id, "ccc_"@) {
        "ccc"@
    } else if starts_with(id, "tesla_epc_"@) {
        "tesla_epc"@
    } else if starts_with(id, "partstrader_"@) || starts_with(id, "parts_trader_"@) {
        "parts_trader"@
    } else if starts_with(id, "ops_trax_"@) || starts_with(id, "opstrax_"@) {
        "ops_trax"@
    } else if starts_with(id, "trained_"@) && trained_workflow(id.subrange(8, id.len() as int))
        is Some {
        trained_workflow(id.subrange(8, id.len() as int))->0
    } else {
        "unknown"@
    }
}

/// Workflow kind of a rule id (compared in lower case).
pub open spec fn workflow_kind_spec(rule_id: Seq<char>) -> Seq<char> {
    workflow_kind_lower(unicode_lower(rule_id))
}

fn trained_workflow_exec(rest: &[char]) -> (r: Option<Vec<char>>)
    ensures
        match r {
            Some(w) => trained_workflow(rest@) == Some(w@),
            None => trained_workflow(rest@) is None,
        },
{
    match rfind_char(rest, '_') {
        None => None,
        Some(end) => {
            let ts = slice_chars(rest, end + 1, rest.len());
            let wf = slice_chars(rest, 0, end);
            if all_digits_exec(ts.as_slice()) && ts.len() > 0 && wf.len() > 0 {
                Some(wf)
            } else {
                None
            }
        },
    }
}

fn workflow_kind_of_lower(id: &[char]) -> (r: String)
    ensures
        r@ == workflow_kind_lower(id@),
{
    if eq_str(id, "none") {
        return String::from_str("unknown");
    }
    if eq_str(id, "excluded") {
        return String::from_str("excluded");
    }
    if starts_with_str(id, "ccc_exclude_") {
        return String::from_str("excluded");
    }
    if starts_with_str(id, "ccc_trained") {
        return String::from_str("ccc");
    }
    if starts_with_str(id, "ccc_") {
        return String::from_str("ccc");
    }
    if starts_with_str(id, "tesla_epc_") {
        return String::from_str("tesla_epc");
    }
    if starts_with_str(id, "partstrader_") || starts_with_str(id, "parts_trader_") {
        return String::from_str("parts_trader");
    }
    if starts_with_str(id, "ops_trax_") || starts_with_str(id, "opstrax_") {
        return String::from_str("ops_trax");
    }
    if starts_with_str(id, "trained_") {
        proof {
            reveal_strlit("trained_");
        }
        let rest = slice_chars(id, 8, id.len());
        if let Some(wf) = trained_workflow_exec(rest.as_slice()) {
            return string_of(wf.as_slice());
        }
    }
    String::from_str("unknown")
}

/// Maps rule ids (built-in, trained, remote) to a stable workflow key for the UI and
/// capture profile.
pub fn workflow_kind_from_rule_id(rule_id: &str) -> (r: String)
    ensures
        r@ == workflow_kind_spec(rule_id@),
{
    let id = lower_chars(rule_id);
    workflow_kind_of_lower(id.as_slice())
}

/// `pdf` for CCC workflows, `screenshot` otherwise.
pub fn preferred_capture_mode_for_rule(rule_id: &str) -> (r: String)
    ensures
        r@ == if workflow_kind_spec(rule_id@) == "ccc"@ {
            "pdf"@
        } else {
            "screenshot"@
        },
{
    let k = workflow_kind_from_rule_id(rule_id);
    let kv = chars_of(k.as_str());
    if eq_str(kv.as_slice(), "ccc") {
        String::from_str("pdf")
    } else {
        String::from_str("screenshot")
    }
}

pub open spec fn sticky_eligible_spec(rule_id: Seq<char>) -> bool {
    let id = unicode_lower(rule_id);
    let k = workflow_kind_spec(rule_id);
    id != "none"@ && id != "excluded"@ && k != "unknown"@ && k != "excluded"@
}

/// Whether a browser window may keep this rule while its title flickers.
pub fn sticky_browser_eligible_rule_id(rule_id: &str) -> (b: bool)
    ensures
        b == sticky_eligible_spec(rule_id@),
{
    let id = lower_chars(rule_id);
    if eq_str(id.as_slice(), "none") || eq_str(id.as_slice(), "excluded") {
        return false;
    }
    let k = workflow_kind_of_lower(id.as_slice());
    let kv = chars_of(k.as_str());
    !eq_str(kv.as_slice(), "unknown") && !eq_str(kv.as_slice(), "excluded")
}

} // verus!

//! Classification of the sampled foreground window against built-in, trained and excluded
//! rules, with the short "sticky" memory that keeps a known context while a browser title
//! flickers, and the cooldown that spaces reactions to the same context.
use vstd::prelude::*;
use crate::context_rules::{
    builtin_by_id, classification_is, classify_context, classify_spec, known_rule_by_id,
    preferred_capture_mode_for_rule, rule_matches, rule_matches_exec, sticky_browser_eligible_rule_id,
    sticky_eligible_spec, workflow_kind_from_rule_id, workflow_kind_spec,
};
use crate::text::{chars_of, contains_str, eq_str, has_sub, lower_chars, push_chars, starts_with, starts_with_str, unicode_lower};
use crate::types::{
    bump_candidate_count, count_of, keys_distinct, rule_views, ContextBucket, ContextClassification,
    RecentMemory, Rule, RuleView, WatchContext,
};

verus! {

/// Classification as plain values: bucket, rule id, reason, cooldown, action allowed.
pub open spec fn cview(c: ContextClassification) -> (ContextBucket, Seq<char>, Seq<char>, u64, bool) {
    (c.bucket, c.rule_id@, c.reason@, c.cooldown_secs, c.action_allowed)
}

/// Classifies the raw app name and window title (both compared in lower case).
pub fn classify_current_context(app_name: &str, window_title: &str) -> (r: ContextClassification)
    ensures
        classification_is(r, classify_spec(unicode_lower(app_name@), unicode_lower(window_title@))),
{
    let a = crate::text::str_to_lowercase(app_name);
    let t = crate::text::str_to_lowercase(window_title);
    classify_context(a.as_str(), t.as_str())
}

/// The app name (lower case) belongs to a browser.
pub open spec fn browser_like(app_lower: Seq<char>) -> bool {
    has_sub(app_lower, "chrome"@) || has_sub(app_lower, "msedge"@) || has_sub(app_lower, "firefox"@)
}

/// Whether the app (compared lower-cased) is a browser.
pub fn is_browser_app(name: &str) -> (b: bool)
    ensures
        b == browser_like(unicode_lower(name@)),
{
    let l = lower_chars(name);
    let app_lower = l.as_slice();
    contains_str(app_lower, "chrome") || contains_str(app_lower, "msedge") || contains_str(
        app_lower,
        "firefox",
    )
}

/// Among the first `k` rules, the first that matches.
pub open spec fn first_match_upto(
    app: Seq<char>,
    title: Seq<char>,
    rules: Seq<RuleView>,
    k: int,
) -> Option<int>
    decreases k,
{
    if k <= 0 {
        None
    } else {
        match first_match_upto(app, title, rules, k - 1) {
            Some(i) => Some(i),
            None => if rule_matches(app, title, rules[k - 1]) {
                Some(k - 1)
            } else {
                None
            },
        }
    }
}

pub open spec fn first_match(app: Seq<char>, title: Seq<char>, rules: Seq<RuleView>) -> Option<int> {
    first_match_upto(app, title, rules, rules.len() as int)
}

proof fn lemma_first_match_stays(app: Seq<char>, title: Seq<char>, rules: Seq<RuleView>, i: int, k: int)
    requires
        0 <= i < k <= rules.len(),
        first_match_upto(app, title, rules, i + 1) == Some(i),
    ensures
        first_match_upto(app, title, rules, k) == Some(i),
    decreases k - i,
{
    if k > i + 1 {
        lemma_first_match_stays(app, title, rules, i, k - 1);
    }
}

/// The first rule of `rules` that matches.
pub fn first_matching_rule(app: &[char], title: &[char], rules: &Vec<Rule>) -> (r: Option<usize>)
    ensures
        match r {
            Some(i) => i < rules@.len() && first_match(app@, title@, rule_views(rules@)) == Some(
                i as int,
            ),
            None => first_match(app@, title@, rule_views(rules@)) is None,
        },
{
    let ghost rv = rule_views(rules@);
    let mut i: usize = 0;
    while i < rules.len()
        invariant
            i <= rules.len(),
            rv == rule_views(rules@),
            first_match_upto(app@, title@, rv, i as int) is None,
        decreases rules.len() - i,
    {
        assert(rv[i as int] == rules@[i as int]@);
        if rule_matches_exec(app, title, &rules[i]) {
            proof {
                lemma_first_match_stays(app@, title@, rv, i as int, rv.len() as int);
            }
            return Some(i);
        }
        i = i + 1;
    }
    None
}

/// `last_reaction` is set and no more than `limit` ms before `now`.
pub open spec fn recent_within(last: Option<i64>, now: i64, limit: int) -> bool {
    match last {
        Some(l) => now - l <= limit,
        None => false,
    }
}

/// The known classification kept for a sticky context: the built-in rule with the last
/// matched id, or a trained id (`ccc_trained*`, `trained_*`) with an 8 s cooldown.
pub open spec fn sticky_view(last_rule: Seq<char>, reason: Seq<char>) -> Option<
    (ContextBucket, Seq<char>, Seq<char>, u64, bool),
> {
    match builtin_by_id(last_rule) {
        Some(r) => Some((ContextBucket::Known, r.id, reason, r.cooldown_secs, true)),
        None => if starts_with(last_rule, "ccc_trained"@) || starts_with(last_rule, "trained_"@) {
            Some((ContextBucket::Known, last_rule, reason, 8, true))
        } else {
            None
        },
    }
}

/// The classification before the sticky rules and excludes: built-in rules, then the
/// first trained rule when nothing allowed an action.
pub open spec fn base_view(
    app_l: Seq<char>,
    title_l: Seq<char>,
    custom: Seq<RuleView>,
) -> (ContextBucket, Seq<char>, Seq<char>, u64, bool) {
    let c0 = classify_spec(app_l, title_l);
    if !c0.4 {
        match first_match(app_l, title_l, custom) {
            Some(i) => (ContextBucket::Known, custom[i].id, "trained"@, 8, true),
            None => c0,
        }
    } else {
        c0
    }
}

/// The final classification of a sample.
pub open spec fn decided_view(
    app: Seq<char>,
    title: Seq<char>,
    custom: Seq<RuleView>,
    exclude: Seq<RuleView>,
    m_rule: Seq<char>,
    m_bucket: Seq<char>,
    m_react: Option<i64>,
    now: i64,
) -> (ContextBucket, Seq<char>, Seq<char>, u64, bool) {
    let al = unicode_lower(app);
    let tl = unicode_lower(title);
    let c1 = base_view(al, tl, custom);
    let c2 = if c1.0 == ContextBucket::Unknown && browser_like(al) && m_bucket == "known"@
        && recent_within(m_react, now, 20000) {
        match sticky_view(m_rule, "sticky_known"@) {
            Some(v) => v,
            None => c1,
        }
    } else {
        c1
    };
    let c3 = if c2.0 == ContextBucket::Unknown && browser_like(al) && sticky_eligible_spec(m_rule)
        && m_bucket == "known"@ && recent_within(m_react, now, 120000) {
        match sticky_view(m_rule, "sticky_workflow_browser"@) {
            Some(v) => v,
            None => c2,
        }
    } else {
        c2
    };
    if first_match(al, tl, exclude) is Some {
        (ContextBucket::Unknown, "excluded"@, "excluded"@, 0, false)
    } else {
        c3
    }
}

/// An excluded window never allows an action, whatever the trained rules and the memory
/// say.
pub proof fn law_excluded_windows_never_act(
    app: Seq<char>,
    title: Seq<char>,
    custom: Seq<RuleView>,
    exclude: Seq<RuleView>,
    m_rule: Seq<char>,
    m_bucket: Seq<char>,
    m_react: Option<i64>,
    now: i64,
)
    requires
        first_match(unicode_lower(app), unicode_lower(title), exclude) is Some,
    ensures
        !decided_view(app, title, custom, exclude, m_rule, m_bucket, m_react, now).4,
        decided_view(app, title, custom, exclude, m_rule, m_bucket, m_react, now).0 == ContextBucket::Unknown,
{
}

proof fn lemma_first_match_found(app: Seq<char>, title: Seq<char>, rules: Seq<RuleView>, i: int, k: int)
    requires
        0 <= i < k <= rules.len(),
        rule_matches(app, title, rules[i]),
    ensures
        first_match_upto(app, title, rules, k) matches Some(j) && 0 <= j <= i && rule_matches(
            app,
            title,
            rules[j],
        ) && forall|l: int| 0 <= l < j ==> !rule_matches(app, title, #[trigger] rules[l]),
    decreases k,
{
    if k - 1 > i {
        lemma_first_match_found(app, title, rules, i, k - 1);
    } else {
        lemma_first_match_none_before(app, title, rules, i);
    }
}

proof fn lemma_first_match_none_before(app: Seq<char>, title: Seq<char>, rules: Seq<RuleView>, k: int)
    requires
        0 <= k <= rules.len(),
    ensures
        match first_match_upto(app, title, rules, k) {
            Some(j) => 0 <= j < k && rule_matches(app, title, rules[j]) && forall|l: int|
                0 <= l < j ==> !rule_matches(app, title, #[trigger] rules[l]),
            None => forall|l: int| 0 <= l < k ==> !rule_matches(app, title, #[trigger] rules[l]),
        },
    decreases k,
{
    if k > 0 {
        lemma_first_match_none_before(app, title, rules, k - 1);
    }
}

/// Law: a trained rule applies to every window that no built-in rule makes actionable and
/// no exclude rule matches: when some trained rule matches it, the decided context is
/// known and actionable, with the id of the first trained rule that matches, whatever a
/// candidate pattern or the memory would say.
pub proof fn law_trained_rule_applies(
    app: Seq<char>,
    title: Seq<char>,
    custom: Seq<RuleView>,
    exclude: Seq<RuleView>,
    m_rule: Seq<char>,
    m_bucket: Seq<char>,
    m_react: Option<i64>,
    now: i64,
    i: int,
)
    requires
        !classify_spec(unicode_lower(app), unicode_lower(title)).4,
        0 <= i < custom.len(),
        rule_matches(unicode_lower(app), unicode_lower(title), custom[i]),
        forall|l: int| 0 <= l < exclude.len() ==> !rule_matches(unicode_lower(app), unicode_lower(title), #[trigger] exclude[l]),
    ensures
        ({
            let d = decided_view(app, title, custom, exclude, m_rule, m_bucket, m_react, now);
            &&& d.0 == ContextBucket::Known
            &&& d.4
            &&& d.2 == "trained"@
            &&& d.3 == 8
            &&& exists|j: int| 0 <= j <= i && rule_matches(unicode_lower(app), unicode_lower(title), #[trigger] custom[j])
                && d.1 == custom[j].id && forall|l: int| 0 <= l < j ==> !rule_matches(
                unicode_lower(app),
                unicode_lower(title),
                #[trigger] custom[l],
            )
        }),
{
    let al = unicode_lower(app);
    let tl = unicode_lower(title);
    lemma_first_match_found(al, tl, custom, i, custom.len() as int);
    lemma_first_match_none_before(al, tl, exclude, exclude.len() as int);
    let j = first_match(al, tl, custom)->0;
    assert(rule_matches(al, tl, custom[j]));
}

pub open spec fn bucket_name(b: ContextBucket) -> Seq<char> {
    match b {
        ContextBucket::Known => "known"@,
        ContextBucket::Candidate => "candidate"@,
        ContextBucket::Unknown => "unknown"@,
    }
}

fn bucket_name_exec(b: ContextBucket) -> (r: String)
    ensures
        r@ == bucket_name(b),
{
    match b {
        ContextBucket::Known => String::from_str("known"),
        ContextBucket::Candidate => String::from_str("candidate"),
        ContextBucket::Unknown => String::from_str("unknown"),
    }
}

fn sticky_classification(last_rule: &str, reason: &str) -> (r: Option<ContextClassification>)
    ensures
        match r {
            Some(c) => sticky_view(last_rule@, reason@) == Some(cview(c)) && c.rule_source@
                == "local"@,
            None => sticky_view(last_rule@, reason@) is None,
        },
{
    match known_rule_by_id(last_rule) {
        Some(rule) => Some(
            ContextClassification {
                bucket: ContextBucket::Known,
                rule_id: rule.id,
                reason: String::from_str(reason),
                cooldown_secs: rule.cooldown_secs,
                action_allowed: true,
                rule_source: String::from_str("local"),
            },
        ),
        None => {
            let lr = chars_of(last_rule);
            if starts_with_str(lr.as_slice(), "ccc_trained") || starts_with_str(
                lr.as_slice(),
                "trained_",
            ) {
                Some(
                    ContextClassification {
                        bucket: ContextBucket::Known,
                        rule_id: String::from_str(last_rule),
                        reason: String::from_str(reason),
                        cooldown_secs: 8,
                        action_allowed: true,
                        rule_source: String::from_str("local"),
                    },
                )
            } else {
                None
            }
        },
    }
}

fn within_ms(last: Option<i64>, now: i64, limit: i64) -> (b: bool)
    ensures
        b == recent_within(last, now, limit as int),
{
    match last {
        Some(l) => (now as i128) - (l as i128) <= limit as i128,
        None => false,
    }
}

/// A sample that was not actionable and differed from the previous one.
pub struct CandidateSighting {
    pub bucket: String,
    pub context_key: String,
    pub rule_id: String,
    pub seen_count: u32,
}

/// What a context sample decided.
pub struct ContextDecision {
    pub context: WatchContext,
    pub candidate: Option<CandidateSighting>,
}

/// `lower(app) + "|" + lower(title)`: the key candidate counts are kept under.
pub open spec fn context_key(app: Seq<char>, title: Seq<char>) -> Seq<char> {
    unicode_lower(app) + "|"@ + unicode_lower(title)
}

/// The cooldown since the last reaction has not elapsed.
pub open spec fn in_cooldown(last: Option<i64>, now: i64, cooldown_secs: u64) -> bool {
    match last {
        Some(l) => now - l < cooldown_secs * 1000,
        None => false,
    }
}

/// Decides the watch context for one sample of the foreground window (`source_app`,
/// `window_title`) at `now_ms`, given the trained and excluded rules, and updates the
/// memory: the built-in rules first, a trained rule when nothing allowed an action, a
/// recently known context kept for browsers whose title flickers (20 s, or 120 s for
/// workflow rules), and excluded windows never match. A matched context repeats within
/// its cooldown only as `in_cooldown`; an unmatched, changed context is counted as a
/// candidate.
pub fn decide_context(
    source_app: &str,
    window_title: &str,
    custom_rules: &Vec<Rule>,
    exclude_rules: &Vec<Rule>,
    memory: &mut RecentMemory,
    now_ms: i64,
) -> (r: ContextDecision)
    requires
        old(memory).wf(),
    ensures
        ({
            let c = decided_view(
                source_app@,
                window_title@,
                rule_views(custom_rules@),
                rule_views(exclude_rules@),
                old(memory).last_matched_rule@,
                old(memory).last_bucket@,
                old(memory).last_reaction_time_unix_ms,
                now_ms,
            );
            let base = base_view(
                unicode_lower(source_app@),
                unicode_lower(window_title@),
                rule_views(custom_rules@),
            );
            let changed = old(memory).last_matched_rule@ != c.1 || old(memory).last_window_title@
                != window_title@;
            let cooling = c.4 && !changed && in_cooldown(
                old(memory).last_reaction_time_unix_ms,
                now_ms,
                c.3,
            );
            let key = context_key(source_app@, window_title@);
            &&& r.context.source_app@ == source_app@
            &&& r.context.window_title@ == window_title@
            &&& r.context.matched == c.4
            &&& r.context.matched_rule@ == c.1
            &&& r.context.workflow_kind@ == workflow_kind_spec(c.1)
            &&& r.context.preferred_capture_mode@ == (if workflow_kind_spec(c.1) == "ccc"@ {
                "pdf"@
            } else {
                "screenshot"@
            })
            &&& r.context.bucket == c.0
            &&& r.context.action_allowed == c.4
            &&& r.context.changed == changed
            &&& r.context.in_cooldown == cooling
            &&& final(memory).wf()
            &&& final(memory).last_matched_rule@ == c.1
            &&& final(memory).last_window_title@ == window_title@
            &&& final(memory).last_bucket@ == bucket_name(base.0)
            &&& final(memory).last_context_key@ == key
            &&& final(memory).last_in_cooldown == cooling
            &&& final(memory).last_reaction_time_unix_ms == (if c.4 && !cooling {
                Some(now_ms)
            } else {
                old(memory).last_reaction_time_unix_ms
            })
            &&& final(memory).last_capture_time_unix_ms == old(
                memory,
            ).last_capture_time_unix_ms
            &&& final(memory).approved_contexts_version == old(memory).approved_contexts_version
            &&& final(memory).approved_contexts_last_loaded_unix_ms == old(
                memory,
            ).approved_contexts_last_loaded_unix_ms
            &&& if changed && !c.4 {
                &&& r.candidate is Some
                &&& r.candidate->0.seen_count == (count_of(old(memory).candidate_counts@, key) + 1)
                    % 0x1_0000_0000
                &&& r.candidate->0.context_key@ == key
                &&& r.candidate->0.bucket@ == bucket_name(base.0)
                &&& r.candidate->0.rule_id@ == c.1
                &&& count_of(final(memory).candidate_counts@, key) == r.candidate->0.seen_count
                &&& forall|k: Seq<char>|
                    k != key ==> count_of(final(memory).candidate_counts@, k) == count_of(
                        old(memory).candidate_counts@,
                        k,
                    )
            } else {
                &&& r.candidate is None
                &&& final(memory).candidate_counts@ == old(memory).candidate_counts@
            }
        }),
{
    let al = lower_chars(source_app);
    let tl = lower_chars(window_title);
    let mut cls = classify_context(crate::text::string_of(al.as_slice()).as_str(), crate::text::string_of(tl.as_slice()).as_str());
    if !cls.action_allowed {
        if let Some(i) = first_matching_rule(al.as_slice(), tl.as_slice(), custom_rules) {
            assert(rule_views(custom_rules@)[i as int] == custom_rules@[i as int]@);
            cls = ContextClassification {
                bucket: ContextBucket::Known,
                rule_id: custom_rules[i].id.clone(),
                reason: String::from_str("trained"),
                cooldown_secs: 8,
                action_allowed: true,
                rule_source: String::from_str("local"),
            };
        }
    }
    let bucket_str = bucket_name_exec(cls.bucket);
    let mut key = crate::text::string_of(al.as_slice());
    key.append("|");
    push_chars(&mut key, tl.as_slice());
    let browser = is_browser_app(source_app);
    let last_bucket = chars_of(memory.last_bucket.as_str());
    let last_known = eq_str(last_bucket.as_slice(), "known");
    if cls.bucket == ContextBucket::Unknown && browser && last_known && within_ms(
        memory.last_reaction_time_unix_ms,
        now_ms,
        20000,
    ) {
        if let Some(c) = sticky_classification(memory.last_matched_rule.as_str(), "sticky_known") {
            cls = c;
        }
    }
    if cls.bucket == ContextBucket::Unknown && browser && sticky_browser_eligible_rule_id(
        memory.last_matched_rule.as_str(),
    ) && last_known && within_ms(memory.last_reaction_time_unix_ms, now_ms, 120000) {
        if let Some(c) = sticky_classification(
            memory.last_matched_rule.as_str(),
            "sticky_workflow_browser",
        ) {
            cls = c;
        }
    }
    if first_matching_rule(al.as_slice(), tl.as_slice(), exclude_rules).is_some() {
        cls = ContextClassification {
            bucket: ContextBucket::Unknown,
            rule_id: String::from_str("excluded"),
            reason: String::from_str("excluded"),
            cooldown_secs: 0,
            action_allowed: false,
            rule_source: String::from_str("local"),
        };
    }
    let rid = chars_of(cls.rule_id.as_str());
    let lrule = chars_of(memory.last_matched_rule.as_str());
    let ltitle = chars_of(memory.last_window_title.as_str());
    let wt = chars_of(window_title);
    let changed = !crate::text::chars_eq(lrule.as_slice(), rid.as_slice())
        || !crate::text::chars_eq(ltitle.as_slice(), wt.as_slice());
    let cooling = cls.action_allowed && !changed && match memory.last_reaction_time_unix_ms {
        Some(l) => (now_ms as i128) - (l as i128) < (cls.cooldown_secs as i128) * 1000,
        None => false,
    };
    memory.last_matched_rule = cls.rule_id.clone();
    memory.last_window_title = String::from_str(window_title);
    memory.last_bucket = bucket_str.clone();
    memory.last_context_key = key.clone();
    memory.last_in_cooldown = cooling;
    if cls.action_allowed && !cooling {
        memory.last_reaction_time_unix_ms = Some(now_ms);
    }
    let candidate = if changed && !cls.action_allowed {
        let n = bump_candidate_count(&mut memory.candidate_counts, key.as_str());
        Some(
            CandidateSighting {
                bucket: bucket_str,
                context_key: key,
                rule_id: cls.rule_id.clone(),
                seen_count: n,
            },
        )
    } else {
        None
    };
    let workflow_kind = workflow_kind_from_rule_id(cls.rule_id.as_str());
    let mode = preferred_capture_mode_for_rule(cls.rule_id.as_str());
    ContextDecision {
        context: WatchContext {
            source_app: String::from_str(source_app),
            window_title: String::from_str(window_title),
            matched: cls.action_allowed,
            matched_rule: cls.rule_id,
            workflow_kind,
            preferred_capture_mode: mode,
            bucket: cls.bucket,
            action_allowed: cls.action_allowed,
            changed,
            in_cooldown: cooling,
        },
        candidate,
    }
}

/// The context last observed, as the overlay shows it.
pub struct LastObservedContext {
    pub source_app: String,
    pub window_title: String,
    pub matched_rule: String,
    pub workflow_kind: String,
    pub preferred_capture_mode: String,
    pub bucket: String,
    pub in_cooldown: bool,
}

/// `dflt` for an empty text.
pub open spec fn or_if_empty(s: Seq<char>, dflt: Seq<char>) -> Seq<char> {
    if s.len() == 0 {
        dflt
    } else {
        s
    }
}

/// The last observed context from the memory: the app is the part of the context key
/// before its first `|`; empty fields read `unknown` (the rule reads `none`).
pub fn last_observed_context(memory: &RecentMemory) -> (r: LastObservedContext)
    ensures
        r.matched_rule@ == or_if_empty(memory.last_matched_rule@, "none"@),
        r.workflow_kind@ == workflow_kind_spec(or_if_empty(memory.last_matched_rule@, "none"@)),
        r.preferred_capture_mode@ == (if workflow_kind_spec(
            or_if_empty(memory.last_matched_rule@, "none"@),
        ) == "ccc"@ {
            "pdf"@
        } else {
            "screenshot"@
        }),
        r.source_app@ == (if memory.last_context_key@.len() == 0 {
            "unknown"@
        } else {
            crate::context_training::text_before(memory.last_context_key@, "|"@)
        }),
        r.window_title@ == or_if_empty(memory.last_window_title@, "unknown"@),
        r.bucket@ == or_if_empty(memory.last_bucket@, "unknown"@),
        r.in_cooldown == memory.last_in_cooldown,
{
    let matched_rule = if memory.last_matched_rule.as_str().is_empty() {
        String::from_str("none")
    } else {
        memory.last_matched_rule.clone()
    };
    let workflow_kind = workflow_kind_from_rule_id(matched_rule.as_str());
    let preferred_capture_mode = preferred_capture_mode_for_rule(matched_rule.as_str());
    let source_app = if memory.last_context_key.as_str().is_empty() {
        String::from_str("unknown")
    } else {
        let k = chars_of(memory.last_context_key.as_str());
        proof {
            reveal_strlit("|");
        }
        let b = crate::context_training::text_before_exec(k.as_slice(), "|");
        crate::text::string_of(b.as_slice())
    };
    let window_title = if memory.last_window_title.as_str().is_empty() {
        String::from_str("unknown")
    } else {
        memory.last_window_title.clone()
    };
    let bucket = if memory.last_bucket.as_str().is_empty() {
        String::from_str("unknown")
    } else {
        memory.last_bucket.clone()
    };
    LastObservedContext {
        source_app,
        window_title,
        matched_rule,
        workflow_kind,
        preferred_capture_mode,
        bucket,
        in_cooldown: memory.last_in_cooldown,
    }
}

} // verus!

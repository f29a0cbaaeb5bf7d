//! Watch-context data: classification buckets, matching rules, the observed context and
//! the small memory kept between samples.
use vstd::prelude::*;
use crate::text::{views, string_of};

verus! {

#[derive(Clone, Copy, Debug, PartialEq, Eq, Structural)]
pub enum ContextBucket {
    Known,
    Candidate,
    Unknown,
}

/// A window-matching rule.
pub struct Rule {
    pub id: String,
    pub app_keywords: Vec<String>,
    /// Any of these must appear in the window title (when `title_keywords_all` is empty).
    pub title_keywords: Vec<String>,
    /// When non-empty, every one must appear in the window title.
    pub title_keywords_all: Vec<String>,
    pub priority: u8,
    pub cooldown_secs: u64,
    /// Logical workflow: `ccc`, `tesla_epc`, `parts_trader`, `ops_trax`, `generic`, …
    pub workflow_kind: String,
}

/// A rule as plain values.
pub struct RuleView {
    pub id: Seq<char>,
    pub app_keywords: Seq<Seq<char>>,
    pub title_keywords: Seq<Seq<char>>,
    pub title_keywords_all: Seq<Seq<char>>,
    pub priority: u8,
    pub cooldown_secs: u64,
    pub workflow_kind: Seq<char>,
}

impl View for Rule {
    type V = RuleView;

    open spec fn view(&self) -> RuleView {
        RuleView {
            id: self.id@,
            app_keywords: views(self.app_keywords@),
            title_keywords: views(self.title_keywords@),
            title_keywords_all: views(self.title_keywords_all@),
            priority: self.priority,
            cooldown_secs: self.cooldown_secs,
            workflow_kind: self.workflow_kind@,
        }
    }
}

/// The views of a sequence of rules.
pub open spec fn rule_views(v: Seq<Rule>) -> Seq<RuleView> {
    v.map_values(|r: Rule| r@)
}

/// A copy of a list of strings.
pub fn clone_strings(v: &Vec<String>) -> (r: Vec<String>)
    ensures
        views(r@) == views(v@),
{
    let mut r: Vec<String> = Vec::new();
    let mut i: usize = 0;
    while i < v.len()
        invariant
            i <= v.len(),
            views(r@) == views(v@).take(i as int),
        decreases v.len() - i,
    {
        let s = v[i].clone();
        let ghost prev = r@;
        r.push(s);
        assert(views(r@) =~= views(prev).push(v@[i as int]@));
        assert(views(v@).take(i + 1) =~= views(v@).take(i as int).push(v@[i as int]@));
        i = i + 1;
    }
    assert(views(v@).take(v.len() as int) =~= views(v@));
    r
}

impl Rule {
    /// A copy of the rule.
    pub fn duplicate(&self) -> (r: Rule)
        ensures
            r@ == self@,
    {
        Rule {
            id: self.id.clone(),
            app_keywords: clone_strings(&self.app_keywords),
            title_keywords: clone_strings(&self.title_keywords),
            title_keywords_all: clone_strings(&self.title_keywords_all),
            priority: self.priority,
            cooldown_secs: self.cooldown_secs,
            workflow_kind: self.workflow_kind.clone(),
        }
    }
}

/// How a window was classified.
pub struct ContextClassification {
    pub bucket: ContextBucket,
    pub rule_id: String,
    pub reason: String,
    pub cooldown_secs: u64,
    pub action_allowed: bool,
    pub rule_source: String,
}

/// What the overlay shows about the foreground window.
pub struct WatchContext {
    pub source_app: String,
    pub window_title: String,
    pub matched: bool,
    pub matched_rule: String,
    /// `ccc`, `tesla_epc`, `parts_trader`, `ops_trax`, `generic`, `unknown`, …
    pub workflow_kind: String,
    pub preferred_capture_mode: String,
    pub bucket: ContextBucket,
    pub action_allowed: bool,
    pub changed: bool,
    pub in_cooldown: bool,
}

/// Memory kept between context samples. `candidate_counts` is an association list
/// (context key, times seen) in which each key occurs once.
pub struct RecentMemory {
    pub last_matched_rule: String,
    pub last_window_title: String,
    pub last_bucket: String,
    pub last_context_key: String,
    pub last_capture_time_unix_ms: Option<i64>,
    pub last_reaction_time_unix_ms: Option<i64>,
    pub last_in_cooldown: bool,
    pub candidate_counts: Vec<(String, u32)>,
    pub approved_contexts_version: Option<String>,
    pub approved_contexts_last_loaded_unix_ms: Option<i64>,
}

/// Each key occurs at most once.
pub open spec fn keys_distinct(v: Seq<(String, u32)>) -> bool {
    forall|i: int, j: int|
        0 <= i < j < v.len() ==> #[trigger] v[i].0@ != #[trigger] v[j].0@
}

impl RecentMemory {
    /// The well-formedness of the memory: candidate keys are distinct.
    pub open spec fn wf(&self) -> bool {
        keys_distinct(self.candidate_counts@)
    }
}

impl Default for RecentMemory {
    fn default() -> (r: Self)
        ensures
            r.last_matched_rule@.len() == 0,
            r.last_window_title@.len() == 0,
            r.last_bucket@.len() == 0,
            r.last_context_key@.len() == 0,
            r.last_capture_time_unix_ms is None,
            r.last_reaction_time_unix_ms is None,
            !r.last_in_cooldown,
            r.candidate_counts@.len() == 0,
            r.approved_contexts_version is None,
            r.approved_contexts_last_loaded_unix_ms is None,
    {
        RecentMemory {
            last_matched_rule: String::new(),
            last_window_title: String::new(),
            last_bucket: String::new(),
            last_context_key: String::new(),
            last_capture_time_unix_ms: None,
            last_reaction_time_unix_ms: None,
            last_in_cooldown: false,
            candidate_counts: Vec::new(),
            approved_contexts_version: None,
            approved_contexts_last_loaded_unix_ms: None,
        }
    }
}

/// The count recorded for `key` (0 when absent).
pub open spec fn count_of(v: Seq<(String, u32)>, key: Seq<char>) -> nat
    decreases v.len(),
{
    if v.len() == 0 {
        0
    } else if v.last().0@ == key {
        v.last().1 as nat
    } else {
        count_of(v.drop_last(), key)
    }
}

/// `candidate_counts.entry(key).and_modify(|c| *c += 1).or_insert(1)` (wrapping on overflow):
/// returns the new count.
pub fn bump_candidate_count(counts: &mut Vec<(String, u32)>, key: &str) -> (n: u32)
    requires
        keys_distinct(old(counts)@),
    ensures
        keys_distinct(final(counts)@),
        n == (count_of(old(counts)@, key@) + 1) % 0x1_0000_0000,
        count_of(final(counts)@, key@) == n,
        forall|k: Seq<char>| k != key@ ==> count_of(final(counts)@, k) == count_of(
            old(counts)@,
            k,
        ),
{
    let kv = crate::text::chars_of(key);
    let mut i: usize = 0;
    while i < counts.len()
        invariant
            i <= counts.len(),
            counts@ == old(counts)@,
            kv@ == key@,
            keys_distinct(old(counts)@),
            forall|j: int| 0 <= j < i ==> counts@[j].0@ != key@,
        decreases counts.len() - i,
    {
        let kc = crate::text::chars_of(counts[i].0.as_str());
        if crate::text::chars_eq(kc.as_slice(), kv.as_slice()) {
            let cur = counts[i].1;
            proof {
                lemma_count_at(old(counts)@, i as int, key@);
            }
            let name = counts[i].0.clone();
            let ghost before = counts@;
            let next = cur.wrapping_add(1);
            counts.set(i, (name, next));
            proof {
                lemma_count_update(before, i as int, key@, next);
                assert forall|a: int, b: int|
                    0 <= a < b < counts@.len() implies #[trigger] counts@[a].0@
                    != #[trigger] counts@[b].0@ by {
                    assert(before[a].0@ != before[b].0@);
                }
            }
            return next;
        }
        i = i + 1;
    }
    proof {
        lemma_count_absent(old(counts)@, key@);
    }
    let ghost before = counts@;
    counts.push((string_of(kv.as_slice()), 1));
    proof {
        assert(counts@.drop_last() =~= before);
        assert forall|k: Seq<char>| k != key@ implies count_of(counts@, k) == count_of(before, k) by {}
        assert forall|a: int, b: int|
            0 <= a < b < counts@.len() implies #[trigger] counts@[a].0@ != #[trigger] counts@[b].0@ by {
            if b == counts@.len() - 1 {
                assert(before[a].0@ != key@);
            } else {
                assert(before[a].0@ != before[b].0@);
            }
        }
    }
    1
}

proof fn lemma_count_absent(v: Seq<(String, u32)>, key: Seq<char>)
    requires
        forall|j: int| 0 <= j < v.len() ==> v[j].0@ != key,
    ensures
        count_of(v, key) == 0,
    decreases v.len(),
{
    if v.len() > 0 {
        assert(v.last() == v[v.len() - 1]);
        lemma_count_absent(v.drop_last(), key);
    }
}

proof fn lemma_count_at(v: Seq<(String, u32)>, i: int, key: Seq<char>)
    requires
        0 <= i < v.len(),
        v[i].0@ == key,
        keys_distinct(v),
    ensures
        count_of(v, key) == v[i].1,
    decreases v.len(),
{
    if i < v.len() - 1 {
        assert(v.last() == v[v.len() - 1]);
        assert(v[v.len() - 1].0@ != key);
        lemma_count_at(v.drop_last(), i, key);
    }
}

proof fn lemma_count_update(v: Seq<(String, u32)>, i: int, key: Seq<char>, n: u32)
    requires
        0 <= i < v.len(),
        v[i].0@ == key,
        keys_distinct(v),
    ensures
        count_of(v.update(i, (v[i].0, n)), key) == n,
        forall|k: Seq<char>| k != key ==> count_of(v.update(i, (v[i].0, n)), k) == count_of(v, k),
        keys_distinct(v.update(i, (v[i].0, n))),
    decreases v.len(),
{
    let w = v.update(i, (v[i].0, n));
    assert forall|a: int, b: int| 0 <= a < b < w.len() implies #[trigger] w[a].0@ != #[trigger] w[b].0@ by {
        assert(v[a].0@ != v[b].0@);
    }
    if i == v.len() - 1 {
        assert(w.drop_last() =~= v.drop_last());
    } else {
        assert(v.drop_last()[i] == v[i]);
        assert(w.drop_last() =~= v.drop_last().update(i, (v.drop_last()[i].0, n)));
        lemma_count_update(v.drop_last(), i, key, n);
        assert forall|k: Seq<char>| k != key implies count_of(w, k) == count_of(v, k) by {
            assert(w.len() == v.len());
            assert(w[w.len() - 1] == v[v.len() - 1]);
            assert(count_of(w.drop_last(), k) == count_of(v.drop_last(), k));
        }
    }
}

} // verus!

//! Training from the foreground window: the keywords a trained rule gets, adding trained
//! and exclude rules (once per pattern), and forgetting the ones that match the window.
use vstd::prelude::*;
use crate::context_rules::{rule_matches, rule_matches_exec};
use crate::text::{has_sub, join, occurs_at, starts_with, trim, unicode_lower, views};
use crate::types::{rule_views, Rule, RuleView};

verus! {

/// The text before the first occurrence of `pat` (all of it without one): the first part
/// of `s.split(pat)`.
pub open spec fn text_before(s: Seq<char>, pat: Seq<char>) -> Seq<char>
    decreases s.len(),
{
    if s.len() == 0 || s.len() < pat.len() {
        s
    } else if occurs_at(s, pat, 0) {
        Seq::empty()
    } else {
        seq![s[0]] + text_before(s.drop_first(), pat)
    }
}

proof fn lemma_text_before_step(s: Seq<char>, pat: Seq<char>, i: int)
    requires
        0 <= i <= s.len(),
        pat.len() > 0,
    ensures
        i + pat.len() <= s.len() && occurs_at(s, pat, i) ==> text_before(s.skip(i), pat) == Seq::<char>::empty(),
        i + pat.len() <= s.len() && !occurs_at(s, pat, i) ==> text_before(s.skip(i), pat) == seq![s[i]]
            + text_before(s.skip(i + 1), pat),
        i + pat.len() > s.len() ==> text_before(s.skip(i), pat) == s.skip(i),
{
    let t = s.skip(i);
    if i + pat.len() <= s.len() {
        assert(t.subrange(0, pat.len() as int) =~= s.subrange(i, i + pat.len()));
        assert(occurs_at(t, pat, 0) == occurs_at(s, pat, i));
        assert(t.drop_first() =~= s.skip(i + 1));
    }
}

pub(crate) fn text_before_exec(s: &[char], pat: &str) -> (r: Vec<char>)
    requires
        pat@.len() > 0,
    ensures
        r@ == text_before(s@, pat@),
{
    let p = crate::text::chars_of(pat);
    let mut i: usize = 0;
    assert(s@.skip(0) =~= s@);
    assert(s@.take(0) + text_before(s@.skip(0), p@) =~= text_before(s@, p@));
    while p.len() <= s.len() - i
        invariant
            i <= s.len(),
            p@ == pat@,
            p@.len() > 0,
            s@.take(i as int) + text_before(s@.skip(i as int), p@) == text_before(s@, p@),
        decreases s.len() - i,
    {
        proof {
            lemma_text_before_step(s@, p@, i as int);
        }
        if crate::text::matches_at(s, p.as_slice(), i) {
            assert(s@.take(i as int) + Seq::<char>::empty() =~= s@.take(i as int));
            return crate::text::slice_chars(s, 0, i);
        }
        assert(s@.take(i as int) + (seq![s@[i as int]] + text_before(s@.skip(i + 1), p@)) =~= s@.take(i + 1)
            + text_before(s@.skip(i + 1), p@));
        i = i + 1;
    }
    proof {
        lemma_text_before_step(s@, p@, i as int);
    }
    assert(s@.take(i as int) + s@.skip(i as int) =~= s@);
    crate::text::slice_chars(s, 0, s.len())
}

/// The words of a text: maximal runs of characters other than a space (with `cur` the
/// word read so far).
pub open spec fn words_from(s: Seq<char>, cur: Seq<char>) -> Seq<Seq<char>>
    decreases s.len(),
{
    if s.len() == 0 {
        if cur.len() > 0 {
            seq![cur]
        } else {
            Seq::empty()
        }
    } else if s[0] == ' ' {
        (if cur.len() > 0 {
            seq![cur]
        } else {
            Seq::empty()
        }) + words_from(s.drop_first(), Seq::empty())
    } else {
        words_from(s.drop_first(), cur.push(s[0]))
    }
}

/// A letter or a space stays, anything else becomes a space.
pub open spec fn letter_or_space(c: char) -> char {
    if ('a' <= c && c <= 'z') || ('A' <= c && c <= 'Z') || c == ' ' {
        c
    } else {
        ' '
    }
}

pub open spec fn stop_word(w: Seq<char>) -> bool {
    w == "google"@ || w == "chrome"@ || w == "microsoft"@ || w == "edge"@ || w == "mozilla"@ || w
        == "firefox"@ || w == "tab"@ || w == "new"@ || w == "home"@ || w == "page"@
}

pub open spec fn signature_word(w: Seq<char>) -> bool {
    w.len() >= 3 && !stop_word(w)
}

/// The title pattern a trained rule gets: the lower-cased title up to a browser suffix
/// (` - google chrome`, ` - microsoft edge`, ` - mozilla firefox`), reduced to its ASCII
/// letters, its first four words of three or more letters that are not browser or tab
/// words, joined by spaces; `repair order` when none is left.
pub open spec fn title_signature(title: Seq<char>) -> Seq<char> {
    let l = unicode_lower(title);
    let head = text_before(
        text_before(text_before(l, " - google chrome"@), " - microsoft edge"@),
        " - mozilla firefox"@,
    );
    let words = words_from(head.map_values(|c: char| letter_or_space(c)), Seq::empty());
    let kept = words.filter(|w: Seq<char>| signature_word(w));
    if kept.len() == 0 {
        "repair order"@
    } else {
        join(if kept.len() <= 4 { kept } else { kept.take(4) }, " "@)
    }
}

fn is_stop_word(w: &[char]) -> (b: bool)
    ensures
        b == stop_word(w@),
{
    crate::text::eq_str(w, "google") || crate::text::eq_str(w, "chrome") || crate::text::eq_str(
        w,
        "microsoft",
    ) || crate::text::eq_str(w, "edge") || crate::text::eq_str(w, "mozilla") || crate::text::eq_str(
        w,
        "firefox",
    ) || crate::text::eq_str(w, "tab") || crate::text::eq_str(w, "new") || crate::text::eq_str(
        w,
        "home",
    ) || crate::text::eq_str(w, "page")
}

proof fn lemma_words_step(s: Seq<char>, i: int, cur: Seq<char>)
    requires
        0 <= i < s.len(),
    ensures
        words_from(s.skip(i), cur) == if s[i] == ' ' {
            (if cur.len() > 0 {
                seq![cur]
            } else {
                Seq::empty()
            }) + words_from(s.skip(i + 1), Seq::empty())
        } else {
            words_from(s.skip(i + 1), cur.push(s[i]))
        },
{
    assert(s.skip(i)[0] == s[i]);
    assert(s.skip(i).drop_first() =~= s.skip(i + 1));
}

pub fn title_signature_for_training(window_title: &str) -> (r: String)
    ensures
        r@ == title_signature(window_title@),
{
    let l = crate::text::lower_chars(window_title);
    proof {
        reveal_strlit(" - google chrome");
        reveal_strlit(" - microsoft edge");
        reveal_strlit(" - mozilla firefox");
    }
    let a = text_before_exec(l.as_slice(), " - google chrome");
    let b = text_before_exec(a.as_slice(), " - microsoft edge");
    let head = text_before_exec(b.as_slice(), " - mozilla firefox");
    let mut norm: Vec<char> = Vec::new();
    let mut k: usize = 0;
    while k < head.len()
        invariant
            k <= head.len(),
            norm@ == head@.take(k as int).map_values(|c: char| letter_or_space(c)),
        decreases head.len() - k,
    {
        let c = head[k];
        let d = if ('a' <= c && c <= 'z') || ('A' <= c && c <= 'Z') || c == ' ' {
            c
        } else {
            ' '
        };
        norm.push(d);
        assert(head@.take(k + 1).map_values(|c: char| letter_or_space(c)) =~= head@.take(k as int).map_values(
            |c: char| letter_or_space(c),
        ).push(letter_or_space(head@[k as int])));
        k = k + 1;
    }
    assert(head@.take(head.len() as int) =~= head@);
    let ghost all_words = words_from(norm@, Seq::empty());
    let mut kept: Vec<String> = Vec::new();
    let ghost mut done: Seq<Seq<char>> = Seq::empty();
    let mut cur: Vec<char> = Vec::new();
    let mut i: usize = 0;
    assert(norm@.skip(0) =~= norm@);
    while i < norm.len()
        invariant
            i <= norm.len(),
            all_words == words_from(norm@, Seq::empty()),
            all_words == done + words_from(norm@.skip(i as int), cur@),
            views(kept@) == done.filter(|w: Seq<char>| signature_word(w)),
            forall|j: int| 0 <= j < cur@.len() ==> cur@[j] != ' ',
        decreases norm.len() - i,
    {
        proof {
            lemma_words_step(norm@, i as int, cur@);
        }
        if norm[i] == ' ' {
            if cur.len() > 0 {
                let ghost w = cur@;
                proof {
                    done.lemma_filter_push(w, |w: Seq<char>| signature_word(w));
                }
                if cur.len() >= 3 && !is_stop_word(cur.as_slice()) {
                    let ghost kv = views(kept@);
                    kept.push(crate::text::string_of(cur.as_slice()));
                    assert(views(kept@) =~= kv.push(w));
                }
                proof {
                    assert(done + (seq![w] + words_from(norm@.skip(i + 1), Seq::empty())) =~= done.push(w)
                        + words_from(norm@.skip(i + 1), Seq::empty()));
                    done = done.push(w);
                }
                cur = Vec::new();
            } else {
                assert(done + (Seq::<Seq<char>>::empty() + words_from(norm@.skip(i + 1), Seq::empty()))
                    =~= done + words_from(norm@.skip(i + 1), Seq::empty()));
                cur = Vec::new();
            }
        } else {
            cur.push(norm[i]);
        }
        i = i + 1;
    }
    assert(norm@.skip(norm.len() as int) =~= Seq::<char>::empty());
    if cur.len() > 0 {
        let ghost w = cur@;
        proof {
            done.lemma_filter_push(w, |w: Seq<char>| signature_word(w));
        }
        if cur.len() >= 3 && !is_stop_word(cur.as_slice()) {
            let ghost kv = views(kept@);
            kept.push(crate::text::string_of(cur.as_slice()));
            assert(views(kept@) =~= kv.push(w));
        }
        proof {
            done = done.push(w);
        }
    } else {
        assert(done + Seq::<Seq<char>>::empty() =~= done);
    }
    assert(all_words == done);
    if kept.len() == 0 {
        return String::from_str("repair order");
    }
    let mut first: Vec<String> = Vec::new();
    let mut j: usize = 0;
    while j < kept.len() && j < 4
        invariant
            j <= kept.len(),
            j <= 4,
            views(first@) == views(kept@).take(j as int),
        decreases kept.len() - j,
    {
        first.push(kept[j].clone());
        assert(views(kept@).take(j + 1) =~= views(kept@).take(j as int).push(kept@[j as int]@));
        assert(views(first@) =~= views(kept@).take(j + 1));
        j = j + 1;
    }
    if kept.len() <= 4 {
        assert(views(kept@).take(j as int) =~= views(kept@));
    }
    crate::text::join_strings(&first, " ")
}


/// The app keywords a trained rule gets: the three browsers for a browser window, none for
/// an unknown application, else the lower-cased application name.
pub open spec fn app_keywords_for(app: Seq<char>) -> Seq<Seq<char>> {
    let a = unicode_lower(app);
    if has_sub(a, "chrome"@) || has_sub(a, "msedge"@) || has_sub(a, "firefox"@) {
        seq!["chrome"@, "msedge"@, "firefox"@]
    } else if a.len() == 0 || a == "unknown"@ {
        Seq::empty()
    } else {
        seq![a]
    }
}

pub fn training_keywords_for_current_window(source_app: &str, window_title: &str) -> (r: (Vec<String>, String))
    ensures
        views(r.0@) == app_keywords_for(source_app@),
        r.1@ == title_signature(window_title@),
{
    let a = crate::text::str_to_lowercase(source_app);
    let av = crate::text::chars_of(a.as_str());
    let sig = title_signature_for_training(window_title);
    let mut k: Vec<String> = Vec::new();
    if crate::text::contains_str(av.as_slice(), "chrome") || crate::text::contains_str(av.as_slice(), "msedge")
        || crate::text::contains_str(av.as_slice(), "firefox") {
        k.push(String::from_str("chrome"));
        k.push(String::from_str("msedge"));
        k.push(String::from_str("firefox"));
        assert(views(k@) =~= seq!["chrome"@, "msedge"@, "firefox"@]);
    } else if av.len() == 0 || crate::text::eq_str(av.as_slice(), "unknown") {
        assert(views(k@) =~= Seq::<Seq<char>>::empty());
    } else {
        k.push(a);
        assert(views(k@) =~= seq![av@]);
    }
    (k, sig)
}

/// A rule of `prefix` that already holds this pattern (its id is ignored beyond the
/// prefix).
pub open spec fn same_pattern(r: RuleView, prefix: Seq<char>, app_keywords: Seq<Seq<char>>, signature: Seq<char>) -> bool {
    starts_with(r.id, prefix) && r.app_keywords == app_keywords && r.title_keywords == seq![signature]
}

pub open spec fn has_pattern(rules: Seq<RuleView>, prefix: Seq<char>, app_keywords: Seq<Seq<char>>, signature: Seq<char>) -> bool {
    exists|i: int| 0 <= i < rules.len() && same_pattern(#[trigger] rules[i], prefix, app_keywords, signature)
}

/// The rules after training: the new rule appended unless a rule of its prefix holds its
/// pattern already.
pub open spec fn trained(rules: Seq<RuleView>, prefix: Seq<char>, new_rule: RuleView) -> Seq<RuleView> {
    if has_pattern(rules, prefix, new_rule.app_keywords, new_rule.title_keywords[0]) {
        rules
    } else {
        rules.push(new_rule)
    }
}

/// A trained rule: priority 5, the pattern as its only title keyword.
pub open spec fn trained_rule(id: Seq<char>, app_keywords: Seq<Seq<char>>, signature: Seq<char>, cooldown_secs: u64, workflow_kind: Seq<char>) -> RuleView {
    RuleView {
        id,
        app_keywords,
        title_keywords: seq![signature],
        title_keywords_all: Seq::empty(),
        priority: 5,
        cooldown_secs,
        workflow_kind,
    }
}

fn same_texts(a: &Vec<String>, b: &Vec<String>) -> (r: bool)
    ensures
        r == (views(a@) == views(b@)),
{
    if a.len() != b.len() {
        assert(views(a@).len() != views(b@).len());
        return false;
    }
    let mut i: usize = 0;
    while i < a.len()
        invariant
            i <= a.len(),
            a.len() == b.len(),
            forall|j: int| 0 <= j < i ==> #[trigger] views(a@)[j] == views(b@)[j],
        decreases a.len() - i,
    {
        let x = crate::text::chars_of(a[i].as_str());
        let y = crate::text::chars_of(b[i].as_str());
        if !crate::text::chars_eq(x.as_slice(), y.as_slice()) {
            assert(views(a@)[i as int] != views(b@)[i as int]);
            return false;
        }
        i = i + 1;
    }
    assert(views(a@) =~= views(b@));
    true
}

fn add_trained_rule(
    rules: &mut Vec<Rule>,
    prefix: &str,
    id: String,
    app_keywords: Vec<String>,
    signature: &str,
    cooldown_secs: u64,
    workflow_kind: &str,
)
    ensures
        rule_views(final(rules)@) == trained(
            rule_views(old(rules)@),
            prefix@,
            trained_rule(id@, views(app_keywords@), signature@, cooldown_secs, workflow_kind@),
        ),
{
    let ghost rv = rule_views(rules@);
    let ghost nr = trained_rule(id@, views(app_keywords@), signature@, cooldown_secs, workflow_kind@);
    let mut sig_list: Vec<String> = Vec::new();
    sig_list.push(String::from_str(signature));
    assert(views(sig_list@) =~= seq![signature@]);
    let mut i: usize = 0;
    while i < rules.len()
        invariant
            i <= rules.len(),
            rv == rule_views(rules@),
            rv == rule_views(old(rules)@),
            nr == trained_rule(id@, views(app_keywords@), signature@, cooldown_secs, workflow_kind@),
            views(sig_list@) == seq![signature@],
            forall|j: int| 0 <= j < i ==> !same_pattern(#[trigger] rv[j], prefix@, views(app_keywords@), signature@),
        decreases rules.len() - i,
    {
        let idv = crate::text::chars_of(rules[i].id.as_str());
        assert(rv[i as int] == rules@[i as int]@);
        if crate::text::starts_with_str(idv.as_slice(), prefix) && same_texts(&rules[i].app_keywords, &app_keywords)
            && same_texts(&rules[i].title_keywords, &sig_list) {
            assert(same_pattern(rv[i as int], prefix@, views(app_keywords@), signature@));
            assert(nr.title_keywords[0] == signature@);
            return;
        }
        i = i + 1;
    }
    assert(nr.title_keywords[0] == signature@);
    let ghost kv = views(app_keywords@);
    let ghost idv = id@;
    let no_all: Vec<String> = Vec::new();
    assert(views(no_all@) =~= Seq::<Seq<char>>::empty());
    rules.push(
        Rule {
            id,
            app_keywords,
            title_keywords: sig_list,
            title_keywords_all: no_all,
            priority: 5,
            cooldown_secs,
            workflow_kind: String::from_str(workflow_kind),
        },
    );
    assert(rule_views(rules@) =~= rv.push(nr));
}

/// Learns the foreground window as a CCC context (`ccc_trained_{now}`, cooldown 8 s).
pub fn train_current_context_as_ccc(rules: &mut Vec<Rule>, source_app: &str, window_title: &str, now_ms: i64) -> (r: String)
    ensures
        rule_views(final(rules)@) == trained(
            rule_views(old(rules)@),
            "ccc_trained_"@,
            trained_rule(
                "ccc_trained_"@ + crate::text::decimal_int(now_ms as int),
                app_keywords_for(source_app@),
                title_signature(window_title@),
                8,
                "ccc"@,
            ),
        ),
        r@ == "Trained CCC pattern: "@ + title_signature(window_title@),
{
    let (kw, sig) = training_keywords_for_current_window(source_app, window_title);
    let mut id = String::from_str("ccc_trained_");
    let t = crate::text::i64_to_string(now_ms);
    id.append(t.as_str());
    add_trained_rule(rules, "ccc_trained_", id, kw, sig.as_str(), 8, "ccc");
    let mut m = String::from_str("Trained CCC pattern: ");
    m.append(sig.as_str());
    m
}

pub open spec fn allowed_workflow(wf: Seq<char>) -> bool {
    wf == "ccc"@ || wf == "tesla_epc"@ || wf == "parts_trader"@ || wf == "ops_trax"@ || wf == "generic"@
}

/// The workflow name: lower-cased, trimmed, spaces as `_`.
pub open spec fn workflow_key(workflow: Seq<char>) -> Seq<char> {
    trim(unicode_lower(workflow)).map_values(|c: char| if c == ' ' { '_' } else { c })
}

/// The workflow a training request names, or the error listing the known ones.
pub fn workflow_for_training(workflow: &str) -> (r: Result<String, String>)
    ensures
        allowed_workflow(workflow_key(workflow@)) ==> (r matches Ok(w) && w@ == workflow_key(workflow@)),
        !allowed_workflow(workflow_key(workflow@)) ==> (r matches Err(e) && e@ == "Unknown workflow: "@ + workflow@
            + ". Use: ccc, tesla_epc, parts_trader, ops_trax, generic"@),
{
    let l = crate::text::str_to_lowercase(workflow);
    let t = crate::text::trim_chars(l.as_str());
    let mut w: Vec<char> = Vec::new();
    let mut i: usize = 0;
    while i < t.len()
        invariant
            i <= t.len(),
            t@ == trim(unicode_lower(workflow@)),
            w@ == t@.take(i as int).map_values(|c: char| if c == ' ' { '_' } else { c }),
        decreases t.len() - i,
    {
        let c = t[i];
        w.push(if c == ' ' { '_' } else { c });
        assert(t@.take(i + 1).map_values(|c: char| if c == ' ' { '_' } else { c }) =~= t@.take(i as int).map_values(
            |c: char| if c == ' ' { '_' } else { c },
        ).push(if c == ' ' { '_' } else { c }));
        i = i + 1;
    }
    assert(t@.take(t.len() as int) =~= t@);
    let ws = w.as_slice();
    if crate::text::eq_str(ws, "ccc") || crate::text::eq_str(ws, "tesla_epc") || crate::text::eq_str(ws, "parts_trader")
        || crate::text::eq_str(ws, "ops_trax") || crate::text::eq_str(ws, "generic") {
        Ok(crate::text::string_of(ws))
    } else {
        let mut e = String::from_str("Unknown workflow: ");
        e.append(workflow);
        e.append(". Use: ccc, tesla_epc, parts_trader, ops_trax, generic");
        Err(e)
    }
}

/// Learns the foreground window for a workflow: CCC as `train_current_context_as_ccc`,
/// another known workflow as `trained_{workflow}_{now}` (cooldown 8 s).
pub fn train_current_context_for_workflow(
    rules: &mut Vec<Rule>,
    source_app: &str,
    window_title: &str,
    workflow: &str,
    now_ms: i64,
) -> (r: Result<String, String>)
    ensures
        !allowed_workflow(workflow_key(workflow@)) ==> r is Err && final(rules)@ == old(rules)@,
        allowed_workflow(workflow_key(workflow@)) && workflow_key(workflow@) == "ccc"@ ==> rule_views(final(rules)@)
            == trained(
            rule_views(old(rules)@),
            "ccc_trained_"@,
            trained_rule(
                "ccc_trained_"@ + crate::text::decimal_int(now_ms as int),
                app_keywords_for(source_app@),
                title_signature(window_title@),
                8,
                "ccc"@,
            ),
        ) && (r matches Ok(m) && m@ == "Trained CCC pattern: "@ + title_signature(window_title@)),
        allowed_workflow(workflow_key(workflow@)) && workflow_key(workflow@) != "ccc"@ ==> ({
            let wf = workflow_key(workflow@);
            let prefix = "trained_"@ + wf + "_"@;
            &&& rule_views(final(rules)@) == trained(
                rule_views(old(rules)@),
                prefix,
                trained_rule(
                    prefix + crate::text::decimal_int(now_ms as int),
                    app_keywords_for(source_app@),
                    title_signature(window_title@),
                    8,
                    wf,
                ),
            )
            &&& r matches Ok(m) && m@ == "Trained "@ + wf + " pattern: "@ + title_signature(window_title@)
        }),
{
    let wf = match workflow_for_training(workflow) {
        Err(e) => {
            return Err(e);
        },
        Ok(w) => w,
    };
    let wv = crate::text::chars_of(wf.as_str());
    if crate::text::eq_str(wv.as_slice(), "ccc") {
        return Ok(train_current_context_as_ccc(rules, source_app, window_title, now_ms));
    }
    let (kw, sig) = training_keywords_for_current_window(source_app, window_title);
    let mut prefix = String::from_str("trained_");
    prefix.append(wf.as_str());
    prefix.append("_");
    let mut id = prefix.clone();
    let t = crate::text::i64_to_string(now_ms);
    id.append(t.as_str());
    add_trained_rule(rules, prefix.as_str(), id, kw, sig.as_str(), 8, wf.as_str());
    let mut m = String::from_str("Trained ");
    m.append(wf.as_str());
    m.append(" pattern: ");
    m.append(sig.as_str());
    Ok(m)
}

/// Never treats the foreground window as a CCC context: an exclude rule
/// `ccc_exclude_{now}` (cooldown 0, no workflow) unless one holds the pattern.
pub fn exclude_current_context_from_ccc(exclude_rules: &mut Vec<Rule>, source_app: &str, window_title: &str, now_ms: i64) -> (r:
    String)
    ensures
        rule_views(final(exclude_rules)@) == trained(
            rule_views(old(exclude_rules)@),
            "ccc_exclude_"@,
            trained_rule(
                "ccc_exclude_"@ + crate::text::decimal_int(now_ms as int),
                app_keywords_for(source_app@),
                title_signature(window_title@),
                0,
                Seq::empty(),
            ),
        ),
        r@ == "This window will not match CCC (excluded): "@ + title_signature(window_title@),
{
    let (kw, sig) = training_keywords_for_current_window(source_app, window_title);
    let mut id = String::from_str("ccc_exclude_");
    let t = crate::text::i64_to_string(now_ms);
    id.append(t.as_str());
    proof {
        reveal_strlit("");
        assert(""@ =~= Seq::<char>::empty());
    }
    add_trained_rule(exclude_rules, "ccc_exclude_", id, kw, sig.as_str(), 0, "");
    let mut m = String::from_str("This window will not match CCC (excluded): ");
    m.append(sig.as_str());
    m
}

/// A rule that forgetting removes: of the given kind and matching the window.
pub open spec fn forgotten(r: RuleView, exclude: bool, app_lower: Seq<char>, title_lower: Seq<char>) -> bool {
    (if exclude {
        starts_with(r.id, "ccc_exclude_"@)
    } else {
        starts_with(r.id, "ccc_trained"@) || starts_with(r.id, "trained_"@)
    }) && rule_matches(app_lower, title_lower, r)
}

pub open spec fn kept_rules(rules: Seq<RuleView>, exclude: bool, app_lower: Seq<char>, title_lower: Seq<char>) -> Seq<RuleView> {
    rules.filter(|r: RuleView| !forgotten(r, exclude, app_lower, title_lower))
}

fn forget_matching(rules: &mut Vec<Rule>, exclude: bool, app_lower: &[char], title_lower: &[char]) -> (removed: usize)
    ensures
        rule_views(final(rules)@) == kept_rules(rule_views(old(rules)@), exclude, app_lower@, title_lower@),
        removed == old(rules)@.len() - final(rules)@.len(),
{
    let ghost rv = rule_views(rules@);
    let n = rules.len();
    let mut kept: Vec<Rule> = Vec::new();
    let mut i: usize = 0;
    while i < n
        invariant
            i <= n,
            n == rules.len(),
            rv == rule_views(rules@),
            rule_views(kept@) == kept_rules(rv.take(i as int), exclude, app_lower@, title_lower@),
            kept@.len() <= i,
        decreases n - i,
    {
        let r = &rules[i];
        assert(rv[i as int] == r@);
        let idv = crate::text::chars_of(r.id.as_str());
        let kind = if exclude {
            crate::text::starts_with_str(idv.as_slice(), "ccc_exclude_")
        } else {
            crate::text::starts_with_str(idv.as_slice(), "ccc_trained") || crate::text::starts_with_str(
                idv.as_slice(),
                "trained_",
            )
        };
        let forget = kind && rule_matches_exec(app_lower, title_lower, r);
        proof {
            rv.take(i as int).lemma_filter_push(rv[i as int], |r: RuleView| !forgotten(r, exclude, app_lower@, title_lower@));
            assert(rv.take(i + 1) =~= rv.take(i as int).push(rv[i as int]));
        }
        if !forget {
            let ghost kv = rule_views(kept@);
            kept.push(r.duplicate());
            assert(rule_views(kept@) =~= kv.push(rv[i as int]));
        }
        i = i + 1;
    }
    assert(rv.take(n as int) =~= rv);
    let removed = n - kept.len();
    *rules = kept;
    removed
}

/// The message of a forgetting: how many rules went.
pub open spec fn removed_text(removed: nat, exclude: bool) -> Seq<char> {
    if removed == 0 {
        if exclude {
            "No matching exclude rules to remove."@
        } else {
            "No matching trained rules to remove."@
        }
    } else if exclude {
        "Removed "@ + crate::text::decimal(removed) + " exclude rule(s) for this app/title."@
    } else {
        "Removed "@ + crate::text::decimal(removed) + " trained pattern(s) for this app/title."@
    }
}

fn removed_message(removed: usize, exclude: bool) -> (r: String)
    ensures
        r@ == removed_text(removed as nat, exclude),
{
    if removed == 0 {
        if exclude {
            String::from_str("No matching exclude rules to remove.")
        } else {
            String::from_str("No matching trained rules to remove.")
        }
    } else {
        let mut m = String::from_str("Removed ");
        let d = crate::text::u64_to_string(removed as u64);
        m.append(d.as_str());
        if exclude {
            m.append(" exclude rule(s) for this app/title.");
        } else {
            m.append(" trained pattern(s) for this app/title.");
        }
        m
    }
}

/// Removes the trained rules (`ccc_trained*`, `trained_*`) that match the foreground
/// window (compared lower-cased).
pub fn forget_trained_rules_for_current_context(rules: &mut Vec<Rule>, source_app: &str, window_title: &str) -> (r: String)
    ensures
        rule_views(final(rules)@) == kept_rules(
            rule_views(old(rules)@),
            false,
            unicode_lower(source_app@),
            unicode_lower(window_title@),
        ),
        r@ == removed_text((old(rules)@.len() - final(rules)@.len()) as nat, false),
{
    let a = crate::text::lower_chars(source_app);
    let t = crate::text::lower_chars(window_title);
    let removed = forget_matching(rules, false, a.as_slice(), t.as_slice());
    removed_message(removed, false)
}

/// Removes the exclude rules (`ccc_exclude_*`) that match the foreground window.
pub fn clear_exclude_rules_for_current_context(exclude_rules: &mut Vec<Rule>, source_app: &str, window_title: &str) -> (r:
    String)
    ensures
        rule_views(final(exclude_rules)@) == kept_rules(
            rule_views(old(exclude_rules)@),
            true,
            unicode_lower(source_app@),
            unicode_lower(window_title@),
        ),
        r@ == removed_text((old(exclude_rules)@.len() - final(exclude_rules)@.len()) as nat, true),
{
    let a = crate::text::lower_chars(source_app);
    let t = crate::text::lower_chars(window_title);
    let removed = forget_matching(exclude_rules, true, a.as_slice(), t.as_slice());
    removed_message(removed, true)
}

/// After forgetting, no remaining rule of that kind matches the window, and every rule
/// of another kind or matching another window is kept.
pub proof fn law_forgotten_rules_no_longer_match(rules: Seq<RuleView>, exclude: bool, app_lower: Seq<char>, title_lower: Seq<char>)
    ensures
        forall|i: int| 0 <= i < kept_rules(rules, exclude, app_lower, title_lower).len() ==> !forgotten(
            #[trigger] kept_rules(rules, exclude, app_lower, title_lower)[i],
            exclude,
            app_lower,
            title_lower,
        ),
        forall|i: int| 0 <= i < rules.len() && !forgotten(rules[i], exclude, app_lower, title_lower) ==> kept_rules(
            rules,
            exclude,
            app_lower,
            title_lower,
        ).contains(#[trigger] rules[i]),
{
    let pred = |r: RuleView| !forgotten(r, exclude, app_lower, title_lower);
    rules.filter_lemma(pred);
    assert forall|i: int| 0 <= i < rules.len() && !forgotten(rules[i], exclude, app_lower, title_lower) implies kept_rules(
        rules,
        exclude,
        app_lower,
        title_lower,
    ).contains(#[trigger] rules[i]) by {
        assert(pred(rules[i]));
    }
}

/// Law: forgetting trained patterns for a window leaves no trained rule (id starting with
/// `ccc_trained` or `trained_`, as every training for CCC or another workflow makes) that
/// matches that window; forgetting excludes leaves no `ccc_exclude_` rule that matches it.
/// Rules of other kinds are all kept.
pub proof fn law_forgetting_clears_the_window(rules: Seq<RuleView>, app_lower: Seq<char>, title_lower: Seq<char>)
    ensures
        forall|i: int| 0 <= i < kept_rules(rules, false, app_lower, title_lower).len() && (starts_with(
            #[trigger] kept_rules(rules, false, app_lower, title_lower)[i].id,
            "ccc_trained"@,
        ) || starts_with(kept_rules(rules, false, app_lower, title_lower)[i].id, "trained_"@))
            ==> !rule_matches(app_lower, title_lower, kept_rules(rules, false, app_lower, title_lower)[i]),
        forall|i: int| 0 <= i < kept_rules(rules, true, app_lower, title_lower).len() && starts_with(
            #[trigger] kept_rules(rules, true, app_lower, title_lower)[i].id,
            "ccc_exclude_"@,
        ) ==> !rule_matches(app_lower, title_lower, kept_rules(rules, true, app_lower, title_lower)[i]),
        forall|i: int| 0 <= i < rules.len() && !starts_with(#[trigger] rules[i].id, "ccc_trained"@)
            && !starts_with(rules[i].id, "trained_"@) ==> kept_rules(rules, false, app_lower, title_lower).contains(
            rules[i],
        ),
{
    law_forgotten_rules_no_longer_match(rules, false, app_lower, title_lower);
    law_forgotten_rules_no_longer_match(rules, true, app_lower, title_lower);
}

/// Training the same pattern twice adds it once: after a training, a second one with
/// the same prefix, keywords and title pattern (under any id) leaves the rules alone.
pub proof fn law_training_is_idempotent(
    rules: Seq<RuleView>,
    prefix: Seq<char>,
    first: RuleView,
    second: RuleView,
)
    requires
        starts_with(first.id, prefix),
        first.title_keywords.len() == 1,
        second.app_keywords == first.app_keywords,
        second.title_keywords == first.title_keywords,
    ensures
        trained(trained(rules, prefix, first), prefix, second) == trained(rules, prefix, first),
{
    let once = trained(rules, prefix, first);
    if !has_pattern(rules, prefix, first.app_keywords, first.title_keywords[0]) {
        assert(once[rules.len() as int] == first);
        assert(first.title_keywords =~= seq![first.title_keywords[0]]);
        assert(same_pattern(once[rules.len() as int], prefix, second.app_keywords, second.title_keywords[0]));
    }
}

} // verus!

//! The org-wide watch policy: the document the server sends, the URL it is fetched
//! from (the business id filled into a `{business_id}` placeholder or added as a query
//! parameter), and what applying it records in the context memory.
use vstd::prelude::*;
use crate::ccc_package_sync::opt_view;
use crate::text::{occurs_at, has_sub, trim};
use crate::types::{RecentMemory, Rule};

verus! {

/// The policy document: trained and excluded rules, with an optional version label.
pub struct WatchPolicyDocument {
    pub version: Option<String>,
    pub trained: Vec<Rule>,
    pub excluded: Vec<Rule>,
}

/// `s` with every non-overlapping occurrence of `pat`, left to right, replaced by `rep`
/// (`str::replace`).
pub open spec fn replace_all(s: Seq<char>, pat: Seq<char>, rep: Seq<char>) -> Seq<char>
    decreases s.len(),
{
    if pat.len() == 0 || s.len() < pat.len() {
        s
    } else if occurs_at(s, pat, 0) {
        rep + replace_all(s.skip(pat.len() as int), pat, rep)
    } else {
        seq![s[0]] + replace_all(s.drop_first(), pat, rep)
    }
}

proof fn lemma_replace_step(s: Seq<char>, pat: Seq<char>, rep: Seq<char>, i: int)
    requires
        pat.len() > 0,
        0 <= i <= s.len(),
    ensures
        i + pat.len() <= s.len() && occurs_at(s, pat, i) ==> replace_all(s.skip(i), pat, rep) == rep
            + replace_all(s.skip(i + pat.len()), pat, rep),
        i < s.len() && !(i + pat.len() <= s.len() && occurs_at(s, pat, i)) ==> replace_all(s.skip(i), pat, rep)
            == seq![s[i]] + replace_all(s.skip(i + 1), pat, rep),
        i + pat.len() > s.len() ==> replace_all(s.skip(i), pat, rep) == s.skip(i),
{
    let t = s.skip(i);
    if i + pat.len() <= s.len() {
        if occurs_at(s, pat, i) {
            assert(t.subrange(0, pat.len() as int) =~= s.subrange(i, i + pat.len()));
            assert(occurs_at(t, pat, 0));
            assert(t.skip(pat.len() as int) =~= s.skip(i + pat.len()));
        } else {
            assert(t.subrange(0, pat.len() as int) =~= s.subrange(i, i + pat.len()));
            assert(!occurs_at(t, pat, 0));
            assert(t.drop_first() =~= s.skip(i + 1));
        }
    } else if i < s.len() {
        assert(t.len() < pat.len());
    }
}

fn append_chars(out: &mut Vec<char>, v: &[char])
    ensures
        final(out)@ == old(out)@ + v@,
{
    let ghost start = out@;
    let mut i: usize = 0;
    while i < v.len()
        invariant
            i <= v.len(),
            out@ == start + v@.take(i as int),
        decreases v.len() - i,
    {
        out.push(v[i]);
        assert(start + v@.take(i + 1) =~= (start + v@.take(i as int)).push(v@[i as int]));
        i = i + 1;
    }
    assert(v@.take(v.len() as int) =~= v@);
}

/// `s.replace(pat, rep)` for a non-empty pattern.
pub fn replace_str(s: &str, pat: &str, rep: &str) -> (r: String)
    requires
        pat@.len() > 0,
    ensures
        r@ == replace_all(s@, pat@, rep@),
{
    let v = crate::text::chars_of(s);
    let p = crate::text::chars_of(pat);
    let rv = crate::text::chars_of(rep);
    let mut out: Vec<char> = Vec::new();
    let mut i: usize = 0;
    assert(v@.skip(0) =~= v@);
    while i < v.len()
        invariant
            i <= v.len(),
            v@ == s@,
            p@ == pat@,
            rv@ == rep@,
            p@.len() > 0,
            out@ + replace_all(v@.skip(i as int), p@, rv@) == replace_all(s@, pat@, rep@),
        decreases v.len() - i,
    {
        proof {
            lemma_replace_step(v@, p@, rv@, i as int);
        }
        if p.len() <= v.len() - i && crate::text::matches_at(v.as_slice(), p.as_slice(), i) {
            let ghost before = out@;
            append_chars(&mut out, rv.as_slice());
            assert(out@ + replace_all(v@.skip(i + p.len()), p@, rv@) =~= before + (rv@ + replace_all(
                v@.skip(i + p.len()),
                p@,
                rv@,
            )));
            i = i + p.len();
        } else {
            if p.len() > v.len() - i {
                assert(out@ + v@.skip(i as int) =~= out@ + replace_all(v@.skip(i as int), p@, rv@));
                let mut k: usize = i;
                while k < v.len()
                    invariant
                        i <= k <= v.len(),
                        out@ + v@.skip(k as int) == replace_all(s@, pat@, rep@),
                    decreases v.len() - k,
                {
                    let ghost before = out@;
                    out.push(v[k]);
                    assert(out@ + v@.skip(k + 1) =~= before + v@.skip(k as int));
                    k = k + 1;
                }
                assert(out@ + v@.skip(v.len() as int) =~= out@);
                return crate::text::string_of(out.as_slice());
            }
            let ghost before = out@;
            out.push(v[i]);
            assert(out@ + replace_all(v@.skip(i + 1), p@, rv@) =~= before + (seq![v@[i as int]]
                + replace_all(v@.skip(i + 1), p@, rv@)));
            i = i + 1;
        }
    }
    assert(replace_all(v@.skip(v.len() as int), p@, rv@) =~= Seq::<char>::empty()) by {
        assert(v@.skip(v.len() as int).len() == 0);
    }
    assert(out@ + Seq::<char>::empty() =~= out@);
    crate::text::string_of(out.as_slice())
}

/// Name for what the `url` crate makes of a text: the serialized URL, or the parse
/// error's message.
pub uninterp spec fn url_parse_text(s: Seq<char>) -> Result<Seq<char>, Seq<char>>;

/// Name for the names of the query pairs of the URL `s` parses to, in order.
pub uninterp spec fn url_query_names(s: Seq<char>) -> Seq<Seq<char>>;

/// Name for the serialized URL `s` parses to, with the pair `key=value` appended to its
/// query (form-encoded).
pub uninterp spec fn url_with_pair(s: Seq<char>, key: Seq<char>, value: Seq<char>) -> Seq<char>;

/// Calls `url::Url::parse`, then `Display` of the URL or of the error. Claimed: the
/// result is the value named `url_parse_text` of the input.
#[verifier::external_body]
fn parse_url_serialized(s: &str) -> (r: Result<String, String>)
    ensures
        match r {
            Ok(u) => url_parse_text(s@) == Ok::<Seq<char>, Seq<char>>(u@),
            Err(e) => url_parse_text(s@) == Err::<Seq<char>, Seq<char>>(e@),
        },
{
    match url::Url::parse(s) {
        Ok(u) => Ok(u.to_string()),
        Err(e) => Err(e.to_string()),
    }
}

/// Calls `Url::query_pairs` on the URL `s` parses to and hands out the name of each pair.
/// Claimed: the names are the value named `url_query_names`.
#[verifier::external_body]
fn url_query_keys(s: &str) -> (r: Vec<String>)
    requires
        url_parse_text(s@) is Ok,
    ensures
        crate::text::views(r@) == url_query_names(s@),
{
    match url::Url::parse(s) {
        Ok(u) => u.query_pairs().map(|(k, _)| k.into_owned()).collect(),
        Err(_) => Vec::new(),
    }
}

/// Calls `Url::query_pairs_mut().append_pair` on the URL `s` parses to, then `Display`.
/// Claimed: the result is the value named `url_with_pair`.
#[verifier::external_body]
fn url_append_query_pair(s: &str, key: &str, value: &str) -> (r: String)
    requires
        url_parse_text(s@) is Ok,
    ensures
        r@ == url_with_pair(s@, key@, value@),
{
    match url::Url::parse(s) {
        Ok(mut u) => {
            u.query_pairs_mut().append_pair(key, value);
            u.to_string()
        },
        Err(_) => String::new(),
    }
}

/// The policy URL: the trimmed base with `{business_id}` filled in when it has that
/// placeholder; otherwise the parsed URL, with `business_id` added to the query unless
/// it is there already.
pub open spec fn policy_url(base: Seq<char>, business_id: Seq<char>) -> Result<Seq<char>, Seq<char>> {
    let b = trim(base);
    if b.len() == 0 {
        Err("empty policy URL"@)
    } else if has_sub(b, "{business_id}"@) {
        Ok(replace_all(b, "{business_id}"@, business_id))
    } else {
        match url_parse_text(b) {
            Err(e) => Err("invalid policy URL: "@ + e),
            Ok(u) => Ok(
                if url_query_names(b).contains("business_id"@) {
                    u
                } else {
                    url_with_pair(b, "business_id"@, business_id)
                },
            ),
        }
    }
}

pub fn build_policy_url(base_url: &str, business_id: &str) -> (r: Result<String, String>)
    ensures
        match r {
            Ok(u) => policy_url(base_url@, business_id@) == Ok::<Seq<char>, Seq<char>>(u@),
            Err(e) => policy_url(base_url@, business_id@) == Err::<Seq<char>, Seq<char>>(e@),
        },
{
    let b = crate::text::trim_string(base_url);
    if b.as_str().is_empty() {
        return Err(String::from_str("empty policy URL"));
    }
    let bv = crate::text::chars_of(b.as_str());
    proof {
        reveal_strlit("{business_id}");
    }
    if crate::text::contains_str(bv.as_slice(), "{business_id}") {
        return Ok(replace_str(b.as_str(), "{business_id}", business_id));
    }
    match parse_url_serialized(b.as_str()) {
        Err(e) => {
            let mut m = String::from_str("invalid policy URL: ");
            m.append(e.as_str());
            Err(m)
        },
        Ok(u) => {
            let names = url_query_keys(b.as_str());
            if crate::text::vec_contains_str(&names, "business_id") {
                Ok(u)
            } else {
                Ok(url_append_query_pair(b.as_str(), "business_id", business_id))
            }
        },
    }
}

/// The error for a non-success reply: `watch policy HTTP {status} — {body}`, the body
/// cut to 200 characters.
pub fn policy_http_error(status: &str, body: &str) -> (r: String)
    ensures
        r@ == "watch policy HTTP "@ + status@ + " \u{2014} "@ + crate::text::take_chars(body@, 200),
{
    let mut m = String::from_str("watch policy HTTP ");
    m.append(status);
    m.append(" \u{2014} ");
    let t = crate::text::take_string(body, 200);
    m.append(t.as_str());
    m
}

/// `Watch policy synced: {version}`, `(no version)` without one.
pub fn policy_synced_message(doc: &WatchPolicyDocument) -> (r: String)
    ensures
        r@ == "Watch policy synced: "@ + match opt_view(doc.version) {
            Some(v) => v,
            None => "(no version)"@,
        },
{
    let mut m = String::from_str("Watch policy synced: ");
    match &doc.version {
        Some(v) => m.append(v.as_str()),
        None => m.append("(no version)"),
    }
    m
}

/// What applying a policy records in the memory: its version, when it has one, and the
/// time it was loaded.
pub fn apply_watch_policy_to_memory(memory: &mut RecentMemory, doc: &WatchPolicyDocument, now_ms: i64)
    ensures
        opt_view(final(memory).approved_contexts_version) == match opt_view(doc.version) {
            Some(v) => Some(v),
            None => opt_view(old(memory).approved_contexts_version),
        },
        final(memory).approved_contexts_last_loaded_unix_ms == Some(now_ms),
        final(memory).last_matched_rule == old(memory).last_matched_rule,
        final(memory).last_window_title == old(memory).last_window_title,
        final(memory).last_bucket == old(memory).last_bucket,
        final(memory).last_context_key == old(memory).last_context_key,
        final(memory).last_capture_time_unix_ms == old(memory).last_capture_time_unix_ms,
        final(memory).last_reaction_time_unix_ms == old(memory).last_reaction_time_unix_ms,
        final(memory).last_in_cooldown == old(memory).last_in_cooldown,
        final(memory).candidate_counts == old(memory).candidate_counts,
{
    match &doc.version {
        Some(v) => {
            memory.approved_contexts_version = Some(v.clone());
        },
        None => {},
    }
    memory.approved_contexts_last_loaded_unix_ms = Some(now_ms);
}

} // verus!

//! A JSON document as plain values, with the ordered-map operations the claim decoder
//! uses. An object is a list of `(key, value)` entries kept in ascending key order, as
//! a parsed JSON object iterates; `insert` places a new key where that order puts it.
use vstd::prelude::*;
use crate::text::{chars_eq, chars_of};

verus! {

pub enum Json {
    Null,
    Bool(bool),
    /// The number as its JSON text.
    Number(String),
    Str(String),
    Array(Vec<Json>),
    Object(Vec<(String, Json)>),
}

/// A value one level deep: scalars as plain values, containers as they are.
pub enum JsonV {
    Null,
    Bool(bool),
    Number(Seq<char>),
    Str(Seq<char>),
    Array(Vec<Json>),
    Object(Vec<(String, Json)>),
}

impl View for Json {
    type V = JsonV;

    open spec fn view(&self) -> JsonV {
        match self {
            Json::Null => JsonV::Null,
            Json::Bool(b) => JsonV::Bool(*b),
            Json::Number(n) => JsonV::Number(n@),
            Json::Str(s) => JsonV::Str(s@),
            Json::Array(a) => JsonV::Array(*a),
            Json::Object(o) => JsonV::Object(*o),
        }
    }
}

impl Json {
    pub fn is_array(&self) -> (b: bool)
        ensures
            b == (self@ is Array),
    {
        match self {
            Json::Array(_) => true,
            _ => false,
        }
    }
}

/// Object entries with their keys and values as views.
pub type Entries = Seq<(Seq<char>, JsonV)>;

pub open spec fn entries_view(v: Seq<(String, Json)>) -> Entries {
    v.map_values(|p: (String, Json)| (p.0@, p.1@))
}

pub open spec fn values_view(v: Seq<Json>) -> Seq<JsonV> {
    v.map_values(|j: Json| j@)
}

/// Code-point order on keys (the order of their UTF-8 bytes).
pub closed spec fn key_lt(a: Seq<char>, b: Seq<char>) -> bool
    decreases a.len(),
{
    if b.len() == 0 {
        false
    } else if a.len() == 0 {
        true
    } else if a[0] < b[0] {
        true
    } else if a[0] == b[0] {
        key_lt(a.drop_first(), b.drop_first())
    } else {
        false
    }
}

/// The index of the first entry with key `k`.
pub closed spec fn key_index(m: Entries, k: Seq<char>) -> Option<int> {
    if exists|i: int| 0 <= i < m.len() && #[trigger] m[i].0 == k {
        Some(
            choose|i: int|
                0 <= i < m.len() && #[trigger] m[i].0 == k && forall|j: int|
                    0 <= j < i ==> #[trigger] m[j].0 != k,
        )
    } else {
        None
    }
}

pub open spec fn has_key(m: Entries, k: Seq<char>) -> bool {
    get(m, k) is Some
}

pub closed spec fn get(m: Entries, k: Seq<char>) -> Option<JsonV> {
    match key_index(m, k) {
        Some(i) => Some(m[i].1),
        None => None,
    }
}

/// The entries without key `k`.
pub closed spec fn remove(m: Entries, k: Seq<char>) -> Entries {
    match key_index(m, k) {
        Some(i) => m.remove(i),
        None => m,
    }
}

/// Where a new key `k` goes: before the first entry whose key is greater.
pub closed spec fn insert_pos(m: Entries, k: Seq<char>) -> int {
    if exists|i: int| 0 <= i < m.len() && #[trigger] key_lt(k, m[i].0) {
        choose|i: int|
            0 <= i < m.len() && #[trigger] key_lt(k, m[i].0) && forall|j: int|
                0 <= j < i ==> !#[trigger] key_lt(k, m[j].0)
    } else {
        m.len() as int
    }
}

/// `k` set to `v`: in place when present, else inserted in key order.
pub closed spec fn insert(m: Entries, k: Seq<char>, v: JsonV) -> Entries {
    match key_index(m, k) {
        Some(i) => m.update(i, (k, v)),
        None => m.insert(insert_pos(m, k), (k, v)),
    }
}

/// `k` set to `v` only when absent.
pub open spec fn or_insert(m: Entries, k: Seq<char>, v: JsonV) -> Entries {
    if has_key(m, k) {
        m
    } else {
        insert(m, k, v)
    }
}

/// A scalar as text: a string as itself, a number as its JSON text, a boolean as
/// `true`/`false`; anything else has none.
pub open spec fn scalar_text(j: JsonV) -> Option<Seq<char>> {
    match j {
        JsonV::Str(s) => Some(s),
        JsonV::Number(n) => Some(n),
        JsonV::Bool(b) => Some(
            if b {
                "true"@
            } else {
                "false"@
            },
        ),
        _ => None,
    }
}

proof fn lemma_first_key(m: Entries, k: Seq<char>, i: int)
    requires
        0 <= i < m.len(),
        m[i].0 == k,
        forall|j: int| 0 <= j < i ==> #[trigger] m[j].0 != k,
    ensures
        key_index(m, k) == Some(i),
{
    let c = choose|c: int|
        0 <= c < m.len() && #[trigger] m[c].0 == k && forall|j: int|
            0 <= j < c ==> #[trigger] m[j].0 != k;
    assert(0 <= c < m.len() && m[c].0 == k && forall|j: int| 0 <= j < c ==> #[trigger] m[j].0 != k);
    if c < i {
        assert(m[c].0 != k);
    }
    if i < c {
        assert(m[i].0 != k);
    }
}

proof fn lemma_first_greater(m: Entries, k: Seq<char>, i: int)
    requires
        0 <= i < m.len(),
        key_lt(k, m[i].0),
        forall|j: int| 0 <= j < i ==> !#[trigger] key_lt(k, m[j].0),
    ensures
        insert_pos(m, k) == i,
{
    let c = choose|c: int|
        0 <= c < m.len() && #[trigger] key_lt(k, m[c].0) && forall|j: int|
            0 <= j < c ==> !#[trigger] key_lt(k, m[j].0);
    assert(0 <= c < m.len() && key_lt(k, m[c].0) && forall|j: int|
        0 <= j < c ==> !#[trigger] key_lt(k, m[j].0));
    if c < i {
        assert(!key_lt(k, m[c].0));
    }
    if i < c {
        assert(!key_lt(k, m[i].0));
    }
}

/// Whether `a` sorts before `b`.
pub fn key_less(a: &[char], b: &[char]) -> (r: bool)
    ensures
        r == key_lt(a@, b@),
{
    let mut i: usize = 0;
    assert(a@.skip(0) =~= a@);
    assert(b@.skip(0) =~= b@);
    while i < a.len() && i < b.len()
        invariant
            i <= a.len(),
            i <= b.len(),
            a@.take(i as int) == b@.take(i as int),
            key_lt(a@, b@) == key_lt(a@.skip(i as int), b@.skip(i as int)),
        decreases a.len() - i,
    {
        let x = a[i];
        let y = b[i];
        assert(a@.skip(i as int)[0] == x);
        assert(b@.skip(i as int)[0] == y);
        if x < y {
            return true;
        }
        if x != y {
            return false;
        }
        assert(a@.skip(i as int).drop_first() =~= a@.skip(i + 1));
        assert(b@.skip(i as int).drop_first() =~= b@.skip(i + 1));
        assert(a@.take(i + 1) =~= a@.take(i as int).push(x));
        assert(b@.take(i + 1) =~= b@.take(i as int).push(y));
        i = i + 1;
    }
    i < b.len()
}

/// The index of the first entry with key `k`.
pub fn find_key(m: &Vec<(String, Json)>, k: &str) -> (r: Option<usize>)
    ensures
        match r {
            Some(i) => i < m@.len() && key_index(entries_view(m@), k@) == Some(i as int) && get(
                entries_view(m@),
                k@,
            ) == Some(m@[i as int].1@),
            None => key_index(entries_view(m@), k@) is None && get(entries_view(m@), k@) is None,
        },
{
    let kv = chars_of(k);
    let ghost e = entries_view(m@);
    let mut i: usize = 0;
    while i < m.len()
        invariant
            i <= m.len(),
            e == entries_view(m@),
            kv@ == k@,
            forall|j: int| 0 <= j < i ==> #[trigger] e[j].0 != k@,
        decreases m.len() - i,
    {
        let cur = chars_of(m[i].0.as_str());
        if chars_eq(cur.as_slice(), kv.as_slice()) {
            proof {
                lemma_first_key(e, k@, i as int);
            }
            return Some(i);
        }
        i = i + 1;
    }
    proof {
        if exists|c: int| 0 <= c < e.len() && #[trigger] e[c].0 == k@ {
            let c = choose|c: int| 0 <= c < e.len() && #[trigger] e[c].0 == k@;
            assert(e[c].0 != k@);
        }
    }
    None
}

/// Whether the object has key `k`.
pub fn contains_key(m: &Vec<(String, Json)>, k: &str) -> (b: bool)
    ensures
        b == has_key(entries_view(m@), k@),
{
    find_key(m, k).is_some()
}

/// Takes key `k` out of the object, returning its value.
pub fn remove_key(m: &mut Vec<(String, Json)>, k: &str) -> (r: Option<Json>)
    ensures
        match r {
            Some(v) => get(entries_view(old(m)@), k@) == Some(v@),
            None => get(entries_view(old(m)@), k@) is None && final(m)@ == old(m)@,
        },
        entries_view(final(m)@) == remove(entries_view(old(m)@), k@),
{
    match find_key(m, k) {
        Some(i) => {
            let ghost before = entries_view(m@);
            let (_, v) = m.remove(i);
            assert(entries_view(m@) =~= before.remove(i as int));
            Some(v)
        },
        None => None,
    }
}

fn insert_position(m: &Vec<(String, Json)>, k: &[char]) -> (p: usize)
    ensures
        p as int == insert_pos(entries_view(m@), k@),
        p <= m@.len(),
{
    let ghost e = entries_view(m@);
    let mut i: usize = 0;
    while i < m.len()
        invariant
            i <= m.len(),
            e == entries_view(m@),
            forall|j: int| 0 <= j < i ==> !#[trigger] key_lt(k@, e[j].0),
        decreases m.len() - i,
    {
        let cur = chars_of(m[i].0.as_str());
        if key_less(k, cur.as_slice()) {
            proof {
                lemma_first_greater(e, k@, i as int);
            }
            return i;
        }
        i = i + 1;
    }
    proof {
        if exists|c: int| 0 <= c < e.len() && #[trigger] key_lt(k@, e[c].0) {
            let c = choose|c: int| 0 <= c < e.len() && #[trigger] key_lt(k@, e[c].0);
            assert(!key_lt(k@, e[c].0));
        }
    }
    i
}

/// Sets key `k` to `v`.
pub fn insert_key(m: &mut Vec<(String, Json)>, k: String, v: Json)
    ensures
        entries_view(final(m)@) == insert(entries_view(old(m)@), k@, v@),
{
    let ghost before = entries_view(m@);
    match find_key(m, k.as_str()) {
        Some(i) => {
            let ghost kv = k@;
            let ghost vv = v@;
            m.set(i, (k, v));
            assert(entries_view(m@) =~= before.update(i as int, (kv, vv)));
        },
        None => {
            let kc = chars_of(k.as_str());
            let p = insert_position(m, kc.as_slice());
            let ghost kv = k@;
            let ghost vv = v@;
            m.insert(p, (k, v));
            assert(entries_view(m@) =~= before.insert(p as int, (kv, vv)));
        },
    }
}

/// Sets key `k` to `v` when the object has no such key.
pub fn insert_if_absent(m: &mut Vec<(String, Json)>, k: String, v: Json)
    ensures
        entries_view(final(m)@) == or_insert(entries_view(old(m)@), k@, v@),
{
    if !contains_key(m, k.as_str()) {
        insert_key(m, k, v);
    }
}

/// The text of a scalar value (see `scalar_text`).
pub fn scalar_string(j: &Json) -> (r: Option<String>)
    ensures
        match r {
            Some(s) => scalar_text(j@) == Some(s@),
            None => scalar_text(j@) is None,
        },
{
    match j {
        Json::Str(s) => Some(s.clone()),
        Json::Number(n) => Some(n.clone()),
        Json::Bool(b) => {
            if *b {
                Some(String::from_str("true"))
            } else {
                Some(String::from_str("false"))
            }
        },
        _ => None,
    }
}


/// `key_lt` is irreflexive.
pub proof fn lemma_key_lt_irreflexive(a: Seq<char>)
    ensures
        !key_lt(a, a),
    decreases a.len(),
{
    if a.len() > 0 {
        lemma_key_lt_irreflexive(a.drop_first());
    }
}

/// `key_lt` is transitive.
pub proof fn lemma_key_lt_transitive(a: Seq<char>, b: Seq<char>, c: Seq<char>)
    requires
        key_lt(a, b),
        key_lt(b, c),
    ensures
        key_lt(a, c),
    decreases a.len(),
{
    if a.len() > 0 && a[0] == b[0] && b[0] == c[0] {
        lemma_key_lt_transitive(a.drop_first(), b.drop_first(), c.drop_first());
    }
}

/// Any two different keys are ordered one way or the other.
pub proof fn lemma_key_lt_total(a: Seq<char>, b: Seq<char>)
    ensures
        a == b || key_lt(a, b) || key_lt(b, a),
    decreases a.len(),
{
    if a.len() == 0 && b.len() == 0 {
        assert(a =~= b);
    } else if a.len() > 0 && b.len() > 0 && a[0] == b[0] {
        lemma_key_lt_total(a.drop_first(), b.drop_first());
        if a.drop_first() == b.drop_first() {
            assert(a =~= seq![a[0]] + a.drop_first());
            assert(b =~= seq![b[0]] + b.drop_first());
        }
    }
}

/// Strictly ascending in code-point order: sorted, with no repeats.
pub open spec fn strictly_sorted(v: Seq<Seq<char>>) -> bool {
    forall|i: int, j: int| 0 <= i < j < v.len() ==> key_lt(#[trigger] v[i], #[trigger] v[j])
}

/// The distinct texts of `v` in ascending order (`sort` then `dedup`).
pub fn sorted_unique(v: &Vec<String>) -> (r: Vec<String>)
    ensures
        strictly_sorted(crate::text::views(r@)),
        forall|s: Seq<char>| crate::text::views(r@).contains(s) <==> crate::text::views(v@).contains(s),
{
    let mut out: Vec<String> = Vec::new();
    let mut i: usize = 0;
    while i < v.len()
        invariant
            i <= v.len(),
            strictly_sorted(crate::text::views(out@)),
            forall|s: Seq<char>| crate::text::views(out@).contains(s) <==> crate::text::views(v@).take(i as int).contains(s),
        decreases v.len() - i,
    {
        let x = &v[i];
        let xv = crate::text::chars_of(x.as_str());
        let ghost ov = crate::text::views(out@);
        let ghost tk = crate::text::views(v@).take(i as int);
        assert(crate::text::views(v@).take(i + 1) =~= tk.push(x@));
        let mut p: usize = 0;
        while p < out.len()
            invariant
                p <= out.len(),
                ov == crate::text::views(out@),
                xv@ == x@,
                forall|k: int| 0 <= k < p ==> key_lt(#[trigger] ov[k], x@),
            ensures
                p <= out.len(),
                forall|k: int| 0 <= k < p ==> key_lt(#[trigger] ov[k], x@),
                p < out.len() ==> !key_lt(ov[p as int], x@),
            decreases out.len() - p,
        {
            let cv = crate::text::chars_of(out[p].as_str());
            if !key_less(cv.as_slice(), xv.as_slice()) {
                break;
            }
            p = p + 1;
        }
        let dup = if p < out.len() {
            let cv = crate::text::chars_of(out[p].as_str());
            crate::text::chars_eq(cv.as_slice(), xv.as_slice())
        } else {
            false
        };
        if dup {
            assert(ov[p as int] == x@);
            assert forall|s: Seq<char>| ov.contains(s) <==> tk.push(x@).contains(s) by {
                if s == x@ {
                    assert(ov[p as int] == s);
                }
                if tk.push(x@).contains(s) && s != x@ {
                    let k = choose|k: int| 0 <= k < tk.push(x@).len() && tk.push(x@)[k] == s;
                    assert(tk[k] == s);
                }
                if tk.contains(s) {
                    let k = choose|k: int| 0 <= k < tk.len() && tk[k] == s;
                    assert(tk.push(x@)[k] == s);
                }
            }
        } else {
            proof {
                if p < ov.len() {
                    lemma_key_lt_total(ov[p as int], x@);
                    assert forall|j: int| p <= j < ov.len() implies key_lt(x@, #[trigger] ov[j]) by {
                        if j > p {
                            lemma_key_lt_transitive(x@, ov[p as int], ov[j]);
                        }
                    }
                }
            }
            assert(forall|s: Seq<char>| ov.contains(s) <==> tk.contains(s));
            out.insert(p, x.clone());
            let ghost nv = crate::text::views(out@);
            assert(nv =~= ov.insert(p as int, x@));
            assert forall|a: int, b: int| 0 <= a < b < nv.len() implies key_lt(#[trigger] nv[a], #[trigger] nv[b]) by {
                if b < p {
                    assert(nv[a] == ov[a] && nv[b] == ov[b]);
                } else if b == p {
                    assert(nv[a] == ov[a]);
                } else if a < p {
                    assert(nv[a] == ov[a] && nv[b] == ov[b - 1]);
                    lemma_key_lt_transitive(ov[a], x@, ov[b - 1]);
                } else if a == p {
                    assert(nv[b] == ov[b - 1]);
                } else {
                    assert(nv[a] == ov[a - 1] && nv[b] == ov[b - 1]);
                }
            }
            assert forall|s: Seq<char>| nv.contains(s) <==> tk.push(x@).contains(s) by {
                if nv.contains(s) {
                    let k = choose|k: int| 0 <= k < nv.len() && nv[k] == s;
                    if k < p {
                        assert(ov[k] == s);
                    } else if k > p {
                        assert(ov[k - 1] == s);
                    }
                    if s != x@ {
                        assert(ov.contains(s));
                        let q = choose|q: int| 0 <= q < tk.len() && tk[q] == s;
                        assert(tk.push(x@)[q] == s);
                    } else {
                        assert(tk.push(x@)[tk.len() as int] == s);
                    }
                }
                if tk.push(x@).contains(s) {
                    if s == x@ {
                        assert(nv[p as int] == s);
                    } else {
                        let k = choose|k: int| 0 <= k < tk.push(x@).len() && tk.push(x@)[k] == s;
                        assert(tk[k] == s);
                        assert(tk.contains(s));
                        assert(ov.contains(s));
                        let q = choose|q: int| 0 <= q < ov.len() && ov[q] == s;
                        if q < p {
                            assert(nv[q] == s);
                        } else {
                            assert(nv[q + 1] == s);
                        }
                    }
                }
            }
        }
        i = i + 1;
    }
    assert(crate::text::views(v@).take(v.len() as int) =~= crate::text::views(v@));
    out
}


proof fn lemma_key_absent(m: Entries, k: Seq<char>)
    requires
        forall|j: int| 0 <= j < m.len() ==> #[trigger] m[j].0 != k,
    ensures
        key_index(m, k) is None,
{
}

proof fn lemma_key_index_facts(m: Entries, k: Seq<char>)
    ensures
        match key_index(m, k) {
            Some(i) => 0 <= i < m.len() && m[i].0 == k && forall|j: int| 0 <= j < i ==> #[trigger] m[j].0 != k,
            None => forall|j: int| 0 <= j < m.len() ==> #[trigger] m[j].0 != k,
        },
{
    if exists|i: int| 0 <= i < m.len() && #[trigger] m[i].0 == k {
        let w = choose|i: int| 0 <= i < m.len() && #[trigger] m[i].0 == k;
        assert(exists|i: int|
            0 <= i < m.len() && #[trigger] m[i].0 == k && forall|j: int| 0 <= j < i ==> #[trigger] m[j].0 != k) by {
            lemma_first_exists(m, k, w);
        }
    }
}

proof fn lemma_first_exists(m: Entries, k: Seq<char>, w: int)
    requires
        0 <= w < m.len(),
        m[w].0 == k,
    ensures
        exists|i: int| 0 <= i < m.len() && #[trigger] m[i].0 == k && forall|j: int| 0 <= j < i ==> #[trigger] m[j].0 != k,
    decreases w,
{
    if exists|j: int| 0 <= j < w && #[trigger] m[j].0 == k {
        let j = choose|j: int| 0 <= j < w && #[trigger] m[j].0 == k;
        lemma_first_exists(m, k, j);
    } else {
        assert(forall|j: int| 0 <= j < w ==> #[trigger] m[j].0 != k);
    }
}

proof fn lemma_insert_pos_range(m: Entries, k: Seq<char>)
    ensures
        0 <= insert_pos(m, k) <= m.len(),
{
    if exists|i: int| 0 <= i < m.len() && #[trigger] key_lt(k, m[i].0) {
        let w = choose|i: int| 0 <= i < m.len() && #[trigger] key_lt(k, m[i].0);
        lemma_first_lt_exists(m, k, w);
    }
}

proof fn lemma_first_lt_exists(m: Entries, k: Seq<char>, w: int)
    requires
        0 <= w < m.len(),
        key_lt(k, m[w].0),
    ensures
        exists|i: int| 0 <= i < m.len() && #[trigger] key_lt(k, m[i].0) && forall|j: int| 0 <= j < i ==> !#[trigger] key_lt(k, m[j].0),
    decreases w,
{
    if exists|j: int| 0 <= j < w && #[trigger] key_lt(k, m[j].0) {
        let j = choose|j: int| 0 <= j < w && #[trigger] key_lt(k, m[j].0);
        lemma_first_lt_exists(m, k, j);
    } else {
        assert(forall|j: int| 0 <= j < w ==> !#[trigger] key_lt(k, m[j].0));
    }
}

/// Reading a key back after setting it gives the value set.
pub proof fn law_get_after_insert(m: Entries, k: Seq<char>, v: JsonV)
    ensures
        get(insert(m, k, v), k) == Some(v),
{
    lemma_key_index_facts(m, k);
    match key_index(m, k) {
        Some(i) => {
            let n = m.update(i, (k, v));
            lemma_first_key(n, k, i);
        },
        None => {
            lemma_insert_pos_range(m, k);
            let p = insert_pos(m, k);
            let n = m.insert(p, (k, v));
            assert forall|j: int| 0 <= j < p implies #[trigger] n[j].0 != k by {
                assert(n[j] == m[j]);
            }
            lemma_first_key(n, k, p);
        },
    }
}

/// Setting one key leaves every other key's value as it was.
#[verifier::spinoff_prover]
#[verifier::rlimit(30)]
pub proof fn law_insert_keeps_other_keys(m: Entries, k: Seq<char>, v: JsonV, other: Seq<char>)
    requires
        other != k,
    ensures
        get(insert(m, k, v), other) == get(m, other),
{
    lemma_key_index_facts(m, k);
    lemma_key_index_facts(m, other);
    let n = insert(m, k, v);
    match key_index(m, k) {
        Some(i) => {
            assert(n == m.update(i, (k, v)));
            match key_index(m, other) {
                Some(c) => {
                    assert(c != i);
                    assert forall|j: int| 0 <= j < c implies #[trigger] n[j].0 != other by {
                        if j != i {
                            assert(n[j] == m[j]);
                        }
                    }
                    lemma_first_key(n, other, c);
                },
                None => {
                    assert forall|j: int| 0 <= j < n.len() implies #[trigger] n[j].0 != other by {
                        if j != i {
                            assert(n[j] == m[j]);
                        }
                    }
                    lemma_key_absent(n, other);
                },
            }
        },
        None => {
            lemma_insert_pos_range(m, k);
            let p = insert_pos(m, k);
            assert(n == m.insert(p, (k, v)));
            match key_index(m, other) {
                Some(c) => {
                    let c2 = if c < p { c } else { c + 1 };
                    assert(n[c2] == m[c]);
                    assert forall|j: int| 0 <= j < c2 implies #[trigger] n[j].0 != other by {
                        if j < p {
                            assert(n[j] == m[j]);
                        } else if j > p {
                            assert(n[j] == m[j - 1]);
                        }
                    }
                    lemma_first_key(n, other, c2);
                },
                None => {
                    assert forall|j: int| 0 <= j < n.len() implies #[trigger] n[j].0 != other by {
                        if j < p {
                            assert(n[j] == m[j]);
                        } else if j > p {
                            assert(n[j] == m[j - 1]);
                        }
                    }
                    lemma_key_absent(n, other);
                },
            }
        },
    }
}

/// In an object whose keys are distinct, a removed key is gone.
pub proof fn law_remove_then_absent(m: Entries, k: Seq<char>)
    requires
        forall|i: int, j: int| 0 <= i < j < m.len() ==> #[trigger] m[i].0 != #[trigger] m[j].0,
    ensures
        !has_key(remove(m, k), k),
{
    lemma_key_index_facts(m, k);
    match key_index(m, k) {
        Some(i) => {
            let n = m.remove(i);
            assert forall|j: int| 0 <= j < n.len() implies #[trigger] n[j].0 != k by {
                if j < i {
                    assert(n[j] == m[j]);
                } else {
                    assert(n[j] == m[j + 1]);
                }
            }
            lemma_key_absent(n, k);
        },
        None => {
            lemma_key_absent(m, k);
        },
    }
}

// ---------------------------------------------------------------------------
// JSON text, parsed by serde_json
// ---------------------------------------------------------------------------

#[verifier::external_type_specification]
#[verifier::external_body]
pub struct ExJsonValue(serde_json::Value);

/// Name for what `serde_json::from_str::<serde_json::Value>` gives for a text, as a `Json`
/// value (see `parse_json_text`) or the parse error's message.
pub uninterp spec fn json_text_value(text: Seq<char>) -> Result<JsonV, Seq<char>>;

/// Converts a parsed `serde_json::Value` to `Json` variant by variant: numbers as their
/// JSON text, object entries in the parsed map's order. It is the conversion part of
/// `parse_json_text` and claims nothing of its own.
#[verifier::external_body]
fn json_of_value(v: &serde_json::Value) -> (r: Json) {
    match v {
        serde_json::Value::Null => Json::Null,
        serde_json::Value::Bool(b) => Json::Bool(*b),
        serde_json::Value::Number(n) => Json::Number(n.to_string()),
        serde_json::Value::String(s) => Json::Str(s.clone()),
        serde_json::Value::Array(a) => Json::Array(a.iter().map(json_of_value).collect()),
        serde_json::Value::Object(o) => Json::Object(
            o.iter().map(|(k, x)| (k.clone(), json_of_value(x))).collect(),
        ),
    }
}

/// Calls `serde_json::from_str::<serde_json::Value>` on `text`, converting the value with
/// `json_of_value` and an error to its `Display` message. Claimed: the outcome is the value
/// named `json_text_value` of the text (serde_json's parse depends on the text alone).
/// Nothing else is claimed of which texts parse or what they parse to.
#[verifier::external_body]
pub(crate) fn parse_json_text(text: &str) -> (r: Result<Json, String>)
    ensures
        match r {
            Ok(v) => json_text_value(text@) == Ok::<JsonV, Seq<char>>(v@),
            Err(e) => json_text_value(text@) == Err::<JsonV, Seq<char>>(e@),
        },
{
    match serde_json::from_str::<serde_json::Value>(text) {
        Ok(v) => Ok(json_of_value(&v)),
        Err(e) => Err(e.to_string()),
    }
}

} // verus!

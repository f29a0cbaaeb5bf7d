//! Windows path strings: separators, component splitting, joining, file names and
//! extensions, and the sanitizing of path segments that come from the server.
//!
//! Paths are plain strings here, with Windows semantics (`\` and `/` both separate,
//! `\` is inserted on join), which is the platform this agent runs on.
use vstd::prelude::*;
use crate::text::{chars_eq, eq_str, is_blank, string_of, trim, trim_chars};

verus! {

pub open spec fn is_sep(c: char) -> bool {
    c == '/' || c == '\\'
}

/// `X:`: a bare drive prefix.
pub open spec fn is_drive(s: Seq<char>) -> bool {
    s.len() == 2 && s[1] == ':' && (('a' <= s[0] && s[0] <= 'z') || ('A' <= s[0] && s[0] <= 'Z'))
}

/// `PathBuf::join` of a relative segment on Windows.
pub open spec fn path_join(base: Seq<char>, seg: Seq<char>) -> Seq<char> {
    if base.len() == 0 {
        seg
    } else if is_sep(base.last()) || is_drive(base) {
        base + seg
    } else {
        base + seq!['\\'] + seg
    }
}

/// Splitting on `/` and `\` (`str::split(['/', '\\'])`), with the part built so far.
pub open spec fn split_from(s: Seq<char>, cur: Seq<char>) -> Seq<Seq<char>>
    decreases s.len(),
{
    if s.len() == 0 {
        seq![cur]
    } else if is_sep(s[0]) {
        seq![cur] + split_from(s.drop_first(), seq![])
    } else {
        split_from(s.drop_first(), cur.push(s[0]))
    }
}

pub open spec fn split_seps(s: Seq<char>) -> Seq<Seq<char>> {
    split_from(s, seq![])
}

/// Trim `/` and `\` from the start.
pub open spec fn trim_start_seps(s: Seq<char>) -> Seq<char>
    decreases s.len(),
{
    if s.len() > 0 && is_sep(s[0]) {
        trim_start_seps(s.drop_first())
    } else {
        s
    }
}

/// Trim `/` and `\` from the end.
pub open spec fn trim_end_seps(s: Seq<char>) -> Seq<char>
    decreases s.len(),
{
    if s.len() > 0 && is_sep(s.last()) {
        trim_end_seps(s.drop_last())
    } else {
        s
    }
}

/// Trim `.` from the end.
pub open spec fn trim_end_dots(s: Seq<char>) -> Seq<char>
    decreases s.len(),
{
    if s.len() > 0 && s.last() == '.' {
        trim_end_dots(s.drop_last())
    } else {
        s
    }
}

/// Characters that Windows refuses in a file name, besides the separators.
pub open spec fn is_reserved_char(c: char) -> bool {
    c == '<' || c == '>' || c == ':' || c == '\\' || c == '"' || c == '|' || c == '?' || c == '*'
}

pub open spec fn clean_char(c: char) -> char {
    if is_reserved_char(c) {
        '_'
    } else {
        c
    }
}

/// A server-provided path segment made safe for a local folder or file name:
/// trimmed, outer separators removed, reserved characters replaced by `_`, trailing dots
/// removed; `None` when nothing usable is left or it is `..`.
pub open spec fn sanitize_segment(s: Seq<char>) -> Option<Seq<char>> {
    let t = trim_end_seps(trim_start_seps(trim(s)));
    if t.len() == 0 || t == ".."@ {
        None
    } else {
        let cleaned = trim_end_dots(t.map_values(|c: char| clean_char(c)));
        if cleaned.len() == 0 || cleaned == ".."@ {
            None
        } else {
            Some(cleaned)
        }
    }
}

/// Appends each part, sanitized, to `base`; `None` as soon as one part is unusable.
pub open spec fn append_parts(base: Seq<char>, parts: Seq<Seq<char>>) -> Option<Seq<char>>
    decreases parts.len(),
{
    if parts.len() == 0 {
        Some(base)
    } else {
        match sanitize_segment(parts[0]) {
            None => None,
            Some(seg) => append_parts(path_join(base, seg), parts.drop_first()),
        }
    }
}

/// `base` joined with every `/`- or `\`-separated part of `rel`, each sanitized.
pub open spec fn append_rel(base: Seq<char>, rel: Seq<char>) -> Option<Seq<char>> {
    append_parts(base, split_seps(rel))
}

/// The last component that is neither empty nor `.`, with its index.
pub open spec fn last_component(parts: Seq<Seq<char>>) -> Option<(Seq<char>, int)>
    decreases parts.len(),
{
    if parts.len() == 0 {
        None
    } else if parts.last().len() == 0 || parts.last() == "."@ {
        last_component(parts.drop_last())
    } else {
        Some((parts.last(), parts.len() - 1))
    }
}

/// `Path::file_name`.
pub open spec fn file_name(p: Seq<char>) -> Option<Seq<char>> {
    match last_component(split_seps(p)) {
        None => None,
        Some((c, i)) => if c == ".."@ || (i == 0 && is_drive(c)) {
            None
        } else {
            Some(c)
        },
    }
}

/// Index of the dot that starts an extension in a file name, if any.
pub open spec fn ext_dot(name: Seq<char>, i: int) -> bool {
    &&& 0 < i < name.len()
    &&& name[i] == '.'
    &&& forall|j: int| i < j < name.len() ==> name[j] != '.'
}

pub open spec fn has_ext_dot(name: Seq<char>) -> bool {
    exists|i: int| ext_dot(name, i)
}

/// `Path::extension` of a file name.
pub open spec fn name_extension(name: Seq<char>) -> Option<Seq<char>> {
    if has_ext_dot(name) {
        let i = choose|i: int| ext_dot(name, i);
        Some(name.subrange(i + 1, name.len() as int))
    } else {
        None
    }
}

/// `Path::file_stem` of a file name.
pub open spec fn name_stem(name: Seq<char>) -> Seq<char> {
    if has_ext_dot(name) {
        let i = choose|i: int| ext_dot(name, i);
        name.subrange(0, i)
    } else {
        name
    }
}

/// `Path::extension`.
pub open spec fn extension(p: Seq<char>) -> Option<Seq<char>> {
    match file_name(p) {
        None => None,
        Some(n) => name_extension(n),
    }
}

/// `Path::file_stem`.
pub open spec fn file_stem(p: Seq<char>) -> Option<Seq<char>> {
    match file_name(p) {
        None => None,
        Some(n) => Some(name_stem(n)),
    }
}

/// The views of a sequence of character vectors.
pub open spec fn vviews(v: Seq<Vec<char>>) -> Seq<Seq<char>> {
    v.map_values(|x: Vec<char>| x@)
}

// ---------------------------------------------------------------------------

pub fn char_is_sep(c: char) -> (b: bool)
    ensures
        b == is_sep(c),
{
    c == '/' || c == '\\'
}

fn is_drive_exec(s: &[char]) -> (b: bool)
    ensures
        b == is_drive(s@),
{
    s.len() == 2 && s[1] == ':' && (('a' <= s[0] && s[0] <= 'z') || ('A' <= s[0] && s[0] <= 'Z'))
}

/// `base` joined with the relative segment `seg`.
pub fn join_chars(base: &[char], seg: &[char]) -> (r: Vec<char>)
    ensures
        r@ == path_join(base@, seg@),
{
    let mut r: Vec<char> = Vec::new();
    let mut i: usize = 0;
    while i < base.len()
        invariant
            i <= base.len(),
            r@ == base@.take(i as int),
        decreases base.len() - i,
    {
        r.push(base[i]);
        assert(base@.take(i + 1) =~= base@.take(i as int).push(base@[i as int]));
        i = i + 1;
    }
    assert(base@.take(base.len() as int) =~= base@);
    if base.len() > 0 && !char_is_sep(base[base.len() - 1]) && !is_drive_exec(base) {
        r.push('\\');
    }
    let ghost mid = r@;
    let mut k: usize = 0;
    while k < seg.len()
        invariant
            k <= seg.len(),
            r@ == mid + seg@.take(k as int),
        decreases seg.len() - k,
    {
        r.push(seg[k]);
        assert(seg@.take(k + 1) =~= seg@.take(k as int).push(seg@[k as int]));
        k = k + 1;
    }
    assert(seg@.take(seg.len() as int) =~= seg@);
    assert(r@ =~= path_join(base@, seg@));
    r
}

/// `str::split(['/', '\\'])`.
pub fn split_seps_exec(v: &[char]) -> (r: Vec<Vec<char>>)
    ensures
        vviews(r@) == split_seps(v@),
{
    let mut parts: Vec<Vec<char>> = Vec::new();
    let mut cur: Vec<char> = Vec::new();
    let mut i: usize = 0;
    assert(v@.skip(0) =~= v@);
    while i < v.len()
        invariant
            i <= v.len(),
            split_seps(v@) == vviews(parts@) + split_from(v@.skip(i as int), cur@),
        decreases v.len() - i,
    {
        let ghost rest = v@.skip(i as int);
        assert(rest.drop_first() =~= v@.skip(i + 1));
        if char_is_sep(v[i]) {
            let done = cur;
            cur = Vec::new();
            let ghost prev = parts@;
            parts.push(done);
            assert(vviews(parts@) =~= vviews(prev).push(done@));
            assert(vviews(prev) + (seq![done@] + split_from(v@.skip(i + 1), seq![])) =~= vviews(
                parts@,
            ) + split_from(v@.skip(i + 1), cur@));
        } else {
            cur.push(v[i]);
        }
        i = i + 1;
    }
    let ghost prev = parts@;
    let last = cur;
    parts.push(last);
    assert(vviews(parts@) =~= vviews(prev).push(last@));
    assert(vviews(parts@) =~= vviews(prev) + split_from(v@.skip(v.len() as int), last@));
    parts
}

fn trim_seps_bounds(v: &[char]) -> (r: (usize, usize))
    ensures
        r.0 <= r.1 <= v.len(),
        v@.subrange(r.0 as int, r.1 as int) == trim_end_seps(trim_start_seps(v@)),
{
    let n = v.len();
    let mut i: usize = 0;
    assert(v@.subrange(0, n as int) =~= v@);
    while i < n && char_is_sep(v[i])
        invariant
            i <= n,
            n == v.len(),
            trim_start_seps(v@) == trim_start_seps(v@.subrange(i as int, n as int)),
        decreases n - i,
    {
        assert(v@.subrange(i as int, n as int).drop_first() =~= v@.subrange(i + 1, n as int));
        i = i + 1;
    }
    assert(trim_start_seps(v@.subrange(i as int, n as int)) == v@.subrange(i as int, n as int));
    let mut j: usize = n;
    while j > i && char_is_sep(v[j - 1])
        invariant
            i <= j <= n,
            n == v.len(),
            trim_end_seps(trim_start_seps(v@)) == trim_end_seps(v@.subrange(i as int, j as int)),
        decreases j,
    {
        assert(v@.subrange(i as int, j as int).drop_last() =~= v@.subrange(i as int, j - 1));
        j = j - 1;
    }
    (i, j)
}

fn clean_and_trim_dots(v: &[char], a: usize, b: usize) -> (r: Vec<char>)
    requires
        a <= b <= v.len(),
    ensures
        r@ == trim_end_dots(v@.subrange(a as int, b as int).map_values(|c: char| clean_char(c))),
{
    let ghost t = v@.subrange(a as int, b as int);
    let mut r: Vec<char> = Vec::new();
    let mut k: usize = a;
    while k < b
        invariant
            a <= k <= b <= v.len(),
            t == v@.subrange(a as int, b as int),
            r@ == t.take(k - a).map_values(|c: char| clean_char(c)),
        decreases b - k,
    {
        let c = v[k];
        let d = if c == '<' || c == '>' || c == ':' || c == '\\' || c == '"' || c == '|' || c
            == '?' || c == '*' {
            '_'
        } else {
            c
        };
        r.push(d);
        assert(t.take(k + 1 - a) =~= t.take(k - a).push(t[k - a]));
        assert(t.take(k + 1 - a).map_values(|c: char| clean_char(c)) =~= t.take(k - a).map_values(
            |c: char| clean_char(c),
        ).push(clean_char(t[k - a])));
        k = k + 1;
    }
    assert(t.take(b - a) =~= t);
    let ghost full = r@;
    while r.len() > 0 && r[r.len() - 1] == '.'
        invariant
            trim_end_dots(full) == trim_end_dots(r@),
        decreases r.len(),
    {
        let ghost before = r@;
        r.pop();
        assert(before.drop_last() =~= r@);
    }
    r
}

/// The sanitized form of one server-provided path segment.
pub fn sanitize_segment_exec(s: &[char]) -> (r: Option<Vec<char>>)
    ensures
        match r {
            Some(x) => sanitize_segment(s@) == Some(x@),
            None => sanitize_segment(s@) is None,
        },
{
    let st = string_of(s);
    let t0 = trim_chars(st.as_str());
    let (a, b) = trim_seps_bounds(t0.as_slice());
    let ghost t = t0@.subrange(a as int, b as int);
    if a == b {
        return None;
    }
    if b - a == 2 && t0[a] == '.' && t0[a + 1] == '.' {
        assert(t =~= ".."@) by {
            reveal_strlit("..");
        }
        return None;
    }
    assert(t != ".."@) by {
        reveal_strlit("..");
        if t == ".."@ {
            assert(".."@ =~= seq!['.', '.']);
            assert(t.len() == 2);
            assert(t[0] == t0@[a as int]);
            assert(t[1] == t0@[a + 1]);
        }
    }
    let c = clean_and_trim_dots(t0.as_slice(), a, b);
    if c.len() == 0 || eq_str(c.as_slice(), "..") {
        return None;
    }
    Some(c)
}

/// Appends each `/`- or `\`-separated part of `rel`, sanitized, to `base`.
pub fn append_rel_exec(base: &[char], rel: &[char]) -> (r: Option<Vec<char>>)
    ensures
        match r {
            Some(x) => append_rel(base@, rel@) == Some(x@),
            None => append_rel(base@, rel@) is None,
        },
{
    let parts = split_seps_exec(rel);
    let mut cur: Vec<char> = Vec::new();
    let mut i: usize = 0;
    while i < base.len()
        invariant
            i <= base.len(),
            cur@ == base@.take(i as int),
        decreases base.len() - i,
    {
        cur.push(base[i]);
        assert(base@.take(i + 1) =~= base@.take(i as int).push(base@[i as int]));
        i = i + 1;
    }
    assert(base@.take(base.len() as int) =~= base@);
    let mut k: usize = 0;
    assert(vviews(parts@).skip(0) =~= vviews(parts@));
    while k < parts.len()
        invariant
            k <= parts.len(),
            vviews(parts@) == split_seps(rel@),
            append_rel(base@, rel@) == append_parts(cur@, vviews(parts@).skip(k as int)),
        decreases parts.len() - k,
    {
        let ghost rest = vviews(parts@).skip(k as int);
        assert(rest[0] == parts@[k as int]@);
        assert(rest.drop_first() =~= vviews(parts@).skip(k + 1));
        match sanitize_segment_exec(parts[k].as_slice()) {
            None => {
                return None;
            },
            Some(seg) => {
                cur = join_chars(cur.as_slice(), seg.as_slice());
            },
        }
        k = k + 1;
    }
    Some(cur)
}

/// `append_rel` for string arguments, as a `String`.
pub fn append_rel_string(base: &str, rel: &str) -> (r: Option<String>)
    ensures
        match r {
            Some(x) => append_rel(base@, rel@) == Some(x@),
            None => append_rel(base@, rel@) is None,
        },
{
    let b = crate::text::chars_of(base);
    let rv = crate::text::chars_of(rel);
    match append_rel_exec(b.as_slice(), rv.as_slice()) {
        Some(x) => Some(string_of(x.as_slice())),
        None => None,
    }
}


/// `Path::file_name` of a path given as characters.
pub fn file_name_exec(p: &[char]) -> (r: Option<Vec<char>>)
    ensures
        match r {
            Some(v) => file_name(p@) == Some(v@),
            None => file_name(p@) is None,
        },
{
    let parts = split_seps_exec(p);
    let ghost ps = vviews(parts@);
    let mut i: usize = parts.len();
    assert(ps.take(parts.len() as int) =~= ps);
    while i > 0
        invariant
            i <= parts.len(),
            ps == vviews(parts@),
            ps == split_seps(p@),
            last_component(ps) == last_component(ps.take(i as int)),
        decreases i,
    {
        let c = &parts[i - 1];
        assert(ps.take(i as int).last() == c@);
        assert(ps.take(i as int).drop_last() =~= ps.take(i - 1));
        if c.len() == 0 || eq_str(c.as_slice(), ".") {
            i = i - 1;
        } else {
            assert(last_component(ps) == Some((c@, i - 1)));
            if eq_str(c.as_slice(), "..") || (i == 1 && is_drive_exec(c.as_slice())) {
                return None;
            }
            return Some(crate::text::slice_chars(c.as_slice(), 0, c.len()));
        }
    }
    assert(ps.take(0) =~= Seq::<Seq<char>>::empty());
    None
}

proof fn lemma_ext_dot_last(name: Seq<char>, k: int)
    requires
        crate::text::last_index(name, '.') == Some(k),
    ensures
        0 <= k < name.len(),
        name[k] == '.',
        forall|j: int| k < j < name.len() ==> name[j] != '.',
    decreases name.len(),
{
    if name.last() != '.' {
        lemma_ext_dot_last(name.drop_last(), k);
        assert forall|j: int| k < j < name.len() implies name[j] != '.' by {
            if j < name.len() - 1 {
                assert(name.drop_last()[j] == name[j]);
            }
        }
    }
}

proof fn lemma_no_dot(name: Seq<char>)
    requires
        crate::text::last_index(name, '.') is None,
    ensures
        forall|j: int| 0 <= j < name.len() ==> name[j] != '.',
    decreases name.len(),
{
    if name.len() > 0 {
        lemma_no_dot(name.drop_last());
        assert forall|j: int| 0 <= j < name.len() implies name[j] != '.' by {
            if j < name.len() - 1 {
                assert(name.drop_last()[j] == name[j]);
            }
        }
    }
}

/// The index of the dot that starts the extension of a file name, if any.
fn ext_dot_exec(name: &[char]) -> (r: Option<usize>)
    ensures
        match r {
            Some(k) => ext_dot(name@, k as int) && has_ext_dot(name@) && (choose|i: int|
                ext_dot(name@, i)) == k as int,
            None => !has_ext_dot(name@),
        },
{
    match crate::text::rfind_char(name, '.') {
        Some(k) => {
            proof {
                lemma_ext_dot_last(name@, k as int);
            }
            if k > 0 {
                assert(ext_dot(name@, k as int));
                proof {
                    let c = choose|i: int| ext_dot(name@, i);
                    assert(ext_dot(name@, c));
                    if c < k as int {
                        assert(name@[k as int] != '.');
                    }
                    if c > k as int {
                        assert(name@[c] != '.');
                    }
                }
                Some(k)
            } else {
                assert forall|i: int| !ext_dot(name@, i) by {
                    if ext_dot(name@, i) {
                        assert(name@[i] != '.');
                    }
                }
                None
            }
        },
        None => {
            proof {
                lemma_no_dot(name@);
            }
            assert forall|i: int| !ext_dot(name@, i) by {
                if ext_dot(name@, i) {
                    assert(name@[i] != '.');
                }
            }
            None
        },
    }
}

/// `Path::extension` of a path given as characters.
pub fn extension_exec(p: &[char]) -> (r: Option<Vec<char>>)
    ensures
        match r {
            Some(v) => extension(p@) == Some(v@),
            None => extension(p@) is None,
        },
{
    match file_name_exec(p) {
        None => None,
        Some(name) => match ext_dot_exec(name.as_slice()) {
            Some(k) => {
                assert(ext_dot(name@, k as int));
                assert(k < name.len());
                Some(crate::text::slice_chars(name.as_slice(), k + 1, name.len()))
            },
            None => None,
        },
    }
}

/// `Path::file_stem` of a path given as characters.
pub fn file_stem_exec(p: &[char]) -> (r: Option<Vec<char>>)
    ensures
        match r {
            Some(v) => file_stem(p@) == Some(v@),
            None => file_stem(p@) is None,
        },
{
    match file_name_exec(p) {
        None => None,
        Some(name) => match ext_dot_exec(name.as_slice()) {
            Some(k) => Some(crate::text::slice_chars(name.as_slice(), 0, k)),
            None => Some(name),
        },
    }
}


/// A joined path starts with its base.
proof fn lemma_join_extends(base: Seq<char>, seg: Seq<char>)
    ensures
        path_join(base, seg).len() >= base.len(),
        path_join(base, seg).subrange(0, base.len() as int) == base,
{
    let j = path_join(base, seg);
    if base.len() == 0 {
        assert(j.subrange(0, 0) =~= base);
    } else if is_sep(base.last()) || is_drive(base) {
        assert(j.subrange(0, base.len() as int) =~= base);
    } else {
        assert(j.subrange(0, base.len() as int) =~= base);
    }
}

/// A server-provided relative path never leads out of the folder it is placed under: the
/// result starts with the base, and a `..` part refuses the whole path.
pub proof fn law_append_rel_stays_under_base(base: Seq<char>, parts: Seq<Seq<char>>)
    ensures
        append_parts(base, parts) matches Some(p) ==> p.len() >= base.len() && p.subrange(0, base.len() as int)
            == base,
        (exists|i: int| 0 <= i < parts.len() && #[trigger] parts[i] == ".."@) ==> append_parts(base, parts) is None,
    decreases parts.len(),
{
    if parts.len() > 0 {
        match sanitize_segment(parts[0]) {
            None => {},
            Some(seg) => {
                let b2 = path_join(base, seg);
                lemma_join_extends(base, seg);
                law_append_rel_stays_under_base(b2, parts.drop_first());
                if let Some(p) = append_parts(b2, parts.drop_first()) {
                    assert(p.subrange(0, base.len() as int) =~= p.subrange(0, b2.len() as int).subrange(0, base.len() as int));
                }
                if exists|i: int| 0 <= i < parts.len() && #[trigger] parts[i] == ".."@ {
                    let i = choose|i: int| 0 <= i < parts.len() && #[trigger] parts[i] == ".."@;
                    if i == 0 {
                        lemma_dotdot_refused();
                    } else {
                        assert(parts.drop_first()[i - 1] == ".."@);
                    }
                }
            },
        }
    }
}

proof fn lemma_dotdot_refused()
    ensures
        sanitize_segment(".."@) is None,
{
    reveal_strlit("..");
    assert(trim(".."@) == ".."@) by {
        assert(!crate::text::is_ws('.'));
        assert(crate::text::trim_start(".."@) =~= ".."@);
        assert(crate::text::trim_end(".."@) =~= ".."@);
    }
    assert(trim_start_seps(".."@) =~= ".."@);
    assert(trim_end_seps(".."@) =~= ".."@);
}

} // verus!

//! Finding the folders where CCC writes its documents: which folders are plausible,
//! which file names look like CCC output and how strongly (in hundredths), and how
//! discovered folders merge into `auto_discovered_ccc_dirs`.
use vstd::prelude::*;
use crate::text::{contains_str, eq_ignore_ascii_case, has_sub, starts_with, trim, unicode_lower, views};

verus! {

pub const RECENT_SECS: u64 = 86400;

pub const MAX_DEPTH: usize = 7;

pub const MAX_VISITS: usize = 6000;

/// Not under Windows or Program Files.
pub open spec fn plausible_path(p: Seq<char>) -> bool {
    let s = unicode_lower(p);
    !(has_sub(s, "\\windows\\"@) || starts_with(s, "c:\\windows"@) || has_sub(s, "\\program files\\"@)
        || has_sub(s, "\\program files (x86)\\"@))
}

pub fn safe_plausible_path(p: &str) -> (b: bool)
    ensures
        b == plausible_path(p@),
{
    let s = crate::text::lower_chars(p);
    let s = s.as_slice();
    !(contains_str(s, "\\windows\\") || crate::text::starts_with_str(s, "c:\\windows") || contains_str(
        s,
        "\\program files\\",
    ) || contains_str(s, "\\program files (x86)\\"))
}

/// A folder whose lower-cased name mentions `ccc` is scanned as a seed.
pub fn is_ccc_named_dir(name: &str) -> (b: bool)
    ensures
        b == has_sub(unicode_lower(name@), "ccc"@),
{
    let n = crate::text::lower_chars(name);
    contains_str(n.as_slice(), "ccc")
}

pub open spec fn kw(n: Seq<char>, k: Seq<char>) -> int {
    if has_sub(n, k) {
        18
    } else {
        0
    }
}

/// 18 for each keyword the name holds.
pub open spec fn keyword_points(n: Seq<char>) -> int {
    kw(n, "ccc"@) + kw(n, "estimate"@) + kw(n, "supplement"@) + kw(n, "change request"@) + kw(
        n,
        "repair order"@,
    ) + kw(n, "workfile"@) + kw(n, "invoice"@) + kw(n, "claim"@) + kw(n, "initial"@) + kw(
        n,
        "record"@,
    )
}

pub open spec fn any_keyword(n: Seq<char>) -> bool {
    keyword_points(n) > 0 || (has_sub(n, "change"@) && has_sub(n, "request"@)) || (has_sub(n, "repair"@)
        && has_sub(n, "order"@))
}

/// How much a recent file's name suggests CCC output, in hundredths (the lower-cased name
/// and lower-cased extension): 18 per keyword, 12 more for `change` with `request`, 15
/// more for `repair` with `order`, 25 more for `ccc`, 20 more for a document extension;
/// at most 100. `None` when the file is neither a document nor named like CCC output.
pub open spec fn candidate_points(name_lower: Seq<char>, ext_lower: Seq<char>) -> Option<int> {
    let n = name_lower;
    let doc = ext_lower == "pdf"@ || ext_lower == "doc"@ || ext_lower == "docx"@ || ext_lower == "rtf"@;
    let s = keyword_points(n) + (if has_sub(n, "change"@) && has_sub(n, "request"@) {
        12int
    } else {
        0
    }) + (if has_sub(n, "repair"@) && has_sub(n, "order"@) {
        15int
    } else {
        0
    }) + (if has_sub(n, "ccc"@) {
        25int
    } else {
        0
    }) + (if doc {
        20int
    } else {
        0
    });
    if !(doc || any_keyword(n)) {
        None
    } else if s > 100 {
        Some(100)
    } else {
        Some(s)
    }
}

fn kw_exec(n: &[char], k: &str) -> (r: u32)
    ensures
        r == kw(n@, k@),
{
    if contains_str(n, k) {
        18
    } else {
        0
    }
}

pub fn candidate_score_hundredths(name_lower: &str, ext_lower: &str) -> (r: Option<u32>)
    ensures
        match r {
            Some(x) => candidate_points(name_lower@, ext_lower@) == Some(x as int),
            None => candidate_points(name_lower@, ext_lower@) is None,
        },
{
    let nv = crate::text::chars_of(name_lower);
    let n = nv.as_slice();
    let ev = crate::text::chars_of(ext_lower);
    let e = ev.as_slice();
    let doc = crate::text::eq_str(e, "pdf") || crate::text::eq_str(e, "doc") || crate::text::eq_str(
        e,
        "docx",
    ) || crate::text::eq_str(e, "rtf");
    let kp: u32 = kw_exec(n, "ccc") + kw_exec(n, "estimate") + kw_exec(n, "supplement") + kw_exec(
        n,
        "change request",
    ) + kw_exec(n, "repair order") + kw_exec(n, "workfile") + kw_exec(n, "invoice") + kw_exec(
        n,
        "claim",
    ) + kw_exec(n, "initial") + kw_exec(n, "record");
    let cr = contains_str(n, "change") && contains_str(n, "request");
    let ro = contains_str(n, "repair") && contains_str(n, "order");
    let has_ccc = contains_str(n, "ccc");
    if !(doc || kp > 0 || cr || ro) {
        return None;
    }
    let mut s: u32 = kp;
    if cr {
        s = s + 12;
    }
    if ro {
        s = s + 15;
    }
    if has_ccc {
        s = s + 25;
    }
    if doc {
        s = s + 20;
    }
    if s > 100 {
        Some(100)
    } else {
        Some(s)
    }
}

/// Merging discovered folders into `auto_discovered_ccc_dirs`: each folder the list does
/// not already hold (ignoring ASCII case, compared trimmed) is appended.
pub open spec fn merge_ccc(merged: Seq<Seq<char>>, added: Seq<Seq<char>>, found: Seq<Seq<char>>) -> (
    Seq<Seq<char>>,
    Seq<Seq<char>>,
)
    decreases found.len(),
{
    if found.len() == 0 {
        (merged, added)
    } else {
        let p = found[0];
        if crate::services::source_autodiscovery::has_ci(merged, trim(p)) {
            merge_ccc(merged, added, found.drop_first())
        } else {
            merge_ccc(merged.push(p), added.push(p), found.drop_first())
        }
    }
}

fn contains_ci(v: &Vec<String>, s: &[char]) -> (r: bool)
    ensures
        r == crate::services::source_autodiscovery::has_ci(views(v@), s@),
{
    let mut i: usize = 0;
    while i < v.len()
        invariant
            i <= v.len(),
            forall|k: int| 0 <= k < i ==> !eq_ignore_ascii_case(#[trigger] views(v@)[k], s@),
        decreases v.len() - i,
    {
        let c = crate::text::chars_of(v[i].as_str());
        let x = crate::text::ascii_lower_exec(c.as_slice());
        let y = crate::text::ascii_lower_exec(s);
        if crate::text::chars_eq(x.as_slice(), y.as_slice()) {
            assert(views(v@)[i as int] == c@);
            return true;
        }
        i = i + 1;
    }
    false
}

pub fn merge_ccc_dirs(before: &Vec<String>, found: &Vec<String>) -> (r: (Vec<String>, Vec<String>))
    ensures
        (views(r.0@), views(r.1@)) == merge_ccc(views(before@), Seq::empty(), views(found@)),
{
    let mut merged = before.clone();
    let mut added: Vec<String> = Vec::new();
    let ghost goal = merge_ccc(views(before@), Seq::empty(), views(found@));
    proof {
        assert(views(merged@) =~= views(before@));
        assert(views(added@) =~= Seq::<Seq<char>>::empty());
        assert(views(found@).skip(0) =~= views(found@));
    }
    let mut i: usize = 0;
    while i < found.len()
        invariant
            i <= found.len(),
            goal == merge_ccc(views(merged@), views(added@), views(found@).skip(i as int)),
        decreases found.len() - i,
    {
        let p = &found[i];
        let ghost rest = views(found@).skip(i as int);
        assert(rest[0] == p@);
        assert(rest.drop_first() =~= views(found@).skip(i + 1));
        let t = crate::text::trim_chars(p.as_str());
        if !contains_ci(&merged, t.as_slice()) {
            let ghost mv = views(merged@);
            let ghost av = views(added@);
            merged.push(p.clone());
            added.push(p.clone());
            assert(views(merged@) =~= mv.push(p@));
            assert(views(added@) =~= av.push(p@));
        }
        i = i + 1;
    }
    assert(views(found@).skip(found.len() as int) =~= Seq::<Seq<char>>::empty());
    (merged, added)
}


proof fn lemma_merge_ccc_shape(merged: Seq<Seq<char>>, added: Seq<Seq<char>>, found: Seq<Seq<char>>)
    ensures
        ({
            let r = merge_ccc(merged, added, found);
            &&& r.1.len() >= added.len()
            &&& r.1.take(added.len() as int) == added
            &&& r.0 == merged + r.1.skip(added.len() as int)
        }),
    decreases found.len(),
{
    if found.len() == 0 {
        assert(added.take(added.len() as int) =~= added);
        assert(merged + added.skip(added.len() as int) =~= merged);
    } else {
        let p = found[0];
        if crate::services::source_autodiscovery::has_ci(merged, trim(p)) {
            lemma_merge_ccc_shape(merged, added, found.drop_first());
        } else {
            lemma_merge_ccc_shape(merged.push(p), added.push(p), found.drop_first());
            let r = merge_ccc(merged, added, found);
            assert(r.1.take(added.len() as int) =~= r.1.take(added.len() as int + 1).take(added.len() as int));
            assert(added.push(p).take(added.len() as int) =~= added);
            assert(r.1.skip(added.len() as int) =~= seq![p] + r.1.skip(added.len() as int + 1)) by {
                assert(r.1.take(added.len() as int + 1)[added.len() as int] == p);
            }
            assert(r.0 =~= merged + r.1.skip(added.len() as int));
        }
    }
}

/// Merging discovered CCC folders only appends: the configured list comes back unchanged
/// at the front with exactly the added folders after it.
pub proof fn law_merge_ccc_appends(before: Seq<Seq<char>>, found: Seq<Seq<char>>)
    ensures
        merge_ccc(before, Seq::empty(), found).0 == before + merge_ccc(before, Seq::empty(), found).1,
{
    lemma_merge_ccc_shape(before, Seq::empty(), found);
    let r = merge_ccc(before, Seq::empty(), found);
    assert(r.1.skip(0) =~= r.1);
}

} // verus!

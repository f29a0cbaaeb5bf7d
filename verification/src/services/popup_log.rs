//! The persistent log of native popup attempts: one line per attempt,
//! `timestamp | kind | source | message`, and the last lines shown by Connection Doctor.
//! Where the log lives and the file I/O are the caller's.
use vstd::prelude::*;
use crate::text::trim_end;

verus! {

/// A message character as written to the log: line breaks become spaces and `|`
/// becomes `¦`, so that a message stays on its line and in its column.
pub open spec fn log_char(c: char) -> char {
    if c == '\r' || c == '\n' {
        ' '
    } else if c == '|' {
        '\u{a6}'
    } else {
        c
    }
}

pub open spec fn log_safe(s: Seq<char>) -> Seq<char> {
    s.map_values(|c: char| log_char(c))
}

/// A logged message stays on its line and in its column: no line break and no `|`
/// survives sanitizing.
pub proof fn law_sanitized_message_stays_on_its_line(s: Seq<char>)
    ensures
        forall|i: int|
            0 <= i < log_safe(s).len() ==> #[trigger] log_safe(s)[i] != '\n' && log_safe(s)[i]
                != '\r' && log_safe(s)[i] != '|',
{
}

pub fn sanitize_for_log(s: &str) -> (r: String)
    ensures
        r@ == log_safe(s@),
{
    let v = crate::text::chars_of(s);
    let mut out: Vec<char> = Vec::new();
    let mut i: usize = 0;
    while i < v.len()
        invariant
            i <= v.len(),
            out@ == log_safe(v@.take(i as int)),
        decreases v.len() - i,
    {
        let c = v[i];
        let d = if c == '\r' || c == '\n' {
            ' '
        } else if c == '|' {
            '\u{a6}'
        } else {
            c
        };
        out.push(d);
        assert(log_safe(v@.take(i + 1)) =~= log_safe(v@.take(i as int)).push(log_char(c)));
        i = i + 1;
    }
    assert(v@.take(v.len() as int) =~= v@);
    crate::text::string_of(out.as_slice())
}

/// The log line of one popup attempt.
pub fn popup_log_line(stamp: &str, kind: &str, source: &str, message: &str) -> (r: String)
    ensures
        r@ == stamp@ + " | "@ + kind@ + " | "@ + source@ + " | "@ + log_safe(message@) + "\n"@,
{
    let mut r = String::from_str(stamp);
    r.append(" | ");
    r.append(kind);
    r.append(" | ");
    r.append(source);
    r.append(" | ");
    let m = sanitize_for_log(message);
    r.append(m.as_str());
    r.append("\n");
    r
}

/// The lines of a text split at `\n` so far: the finished lines and the one being read.
pub open spec fn split_acc(s: Seq<char>) -> (Seq<Seq<char>>, Seq<char>)
    decreases s.len(),
{
    if s.len() == 0 {
        (Seq::empty(), Seq::empty())
    } else {
        let (done, cur) = split_acc(s.drop_last());
        if s.last() == '\n' {
            (done.push(cur), Seq::empty())
        } else {
            (done, cur.push(s.last()))
        }
    }
}

/// `str::split('\n')`.
pub open spec fn split_lines(s: Seq<char>) -> Seq<Seq<char>> {
    split_acc(s).0.push(split_acc(s).1)
}

/// The lines with trailing whitespace removed, blank ones dropped.
pub open spec fn nonblank_trimmed(v: Seq<Seq<char>>) -> Seq<Seq<char>>
    decreases v.len(),
{
    if v.len() == 0 {
        Seq::empty()
    } else {
        let prev = nonblank_trimmed(v.drop_last());
        let t = trim_end(v.last());
        if t.len() == 0 {
            prev
        } else {
            prev.push(t)
        }
    }
}

/// The last `n` non-blank lines of a log text (trailing whitespace removed).
pub open spec fn last_lines(raw: Seq<char>, n: nat) -> Seq<Seq<char>> {
    let k = nonblank_trimmed(split_lines(raw));
    if k.len() > n {
        k.skip(k.len() - n)
    } else {
        k
    }
}

fn trim_end_exec(v: &[char]) -> (r: Vec<char>)
    ensures
        r@ == trim_end(v@),
{
    let mut e: usize = v.len();
    assert(v@.take(e as int) =~= v@);
    while e > 0 && crate::text::char_is_ws(v[e - 1])
        invariant
            e <= v.len(),
            trim_end(v@) == trim_end(v@.take(e as int)),
        decreases e,
    {
        assert(v@.take(e as int).drop_last() =~= v@.take(e - 1));
        e = e - 1;
    }
    crate::text::slice_chars(v, 0, e)
}

fn push_if_nonblank(out: &mut Vec<String>, cur: &[char])
    ensures
        crate::text::views(final(out)@) == ({
            let t = trim_end(cur@);
            if t.len() == 0 {
                crate::text::views(old(out)@)
            } else {
                crate::text::views(old(out)@).push(t)
            }
        }),
{
    let t = trim_end_exec(cur);
    if t.len() > 0 {
        let ghost prev = crate::text::views(out@);
        let s = crate::text::string_of(t.as_slice());
        out.push(s);
        assert(crate::text::views(out@) =~= prev.push(t@));
    }
}

/// The last `n` non-blank lines of the popup log's text, trailing whitespace removed.
pub fn read_last_n_lines(raw: &str, n: usize) -> (r: Vec<String>)
    ensures
        crate::text::views(r@) == last_lines(raw@, n as nat),
{
    let v = crate::text::chars_of(raw);
    let mut kept: Vec<String> = Vec::new();
    let mut cur: Vec<char> = Vec::new();
    let mut i: usize = 0;
    while i < v.len()
        invariant
            i <= v.len(),
            crate::text::views(kept@) == nonblank_trimmed(split_acc(v@.take(i as int)).0),
            cur@ == split_acc(v@.take(i as int)).1,
        decreases v.len() - i,
    {
        let c = v[i];
        assert(v@.take(i + 1).drop_last() =~= v@.take(i as int));
        assert(v@.take(i + 1).last() == c);
        if c == '\n' {
            let ghost done = split_acc(v@.take(i as int)).0;
            push_if_nonblank(&mut kept, cur.as_slice());
            assert(done.push(cur@).drop_last() =~= done);
            cur = Vec::new();
            assert(cur@ =~= Seq::<char>::empty());
        } else {
            cur.push(c);
        }
        i = i + 1;
    }
    assert(v@.take(v.len() as int) =~= v@);
    let ghost done = split_acc(v@).0;
    push_if_nonblank(&mut kept, cur.as_slice());
    assert(done.push(cur@).drop_last() =~= done);
    assert(crate::text::views(kept@) == nonblank_trimmed(split_lines(raw@)));
    if kept.len() > n {
        let start = kept.len() - n;
        let mut out: Vec<String> = Vec::new();
        let mut j: usize = start;
        while j < kept.len()
            invariant
                start <= j <= kept.len(),
                start == kept.len() - n,
                crate::text::views(out@) == crate::text::views(kept@).subrange(start as int, j as int),
            decreases kept.len() - j,
        {
            let ghost prev = crate::text::views(out@);
            out.push(kept[j].clone());
            assert(crate::text::views(out@) =~= prev.push(kept@[j as int]@));
            assert(crate::text::views(kept@).subrange(start as int, j + 1) =~= crate::text::views(
                kept@,
            ).subrange(start as int, j as int).push(kept@[j as int]@));
            j = j + 1;
        }
        assert(crate::text::views(kept@).skip(start as int) =~= crate::text::views(kept@).subrange(
            start as int,
            kept.len() as int,
        ));
        out
    } else {
        kept
    }
}

} // verus!

//! CCC capture diagnostics: which paths count as CCC-related, the ring of recent CCC
//! files seen (repeats within 400 ms dropped), and the result of the capture test.
use vstd::prelude::*;
use crate::text::{has_sub, starts_with, unicode_lower};

verus! {

/// CCC files remembered.
pub const SEEN_MAX: usize = 20;

/// The same path again within this many milliseconds is not recorded twice.
pub const SEEN_REPEAT_MS: u64 = 400;

/// CCC temp, `C:\CCC…`, the CCC Information Services tree, or a ProgramData CCC folder
/// (compared lower-cased).
pub open spec fn ccc_related(path: Seq<char>) -> bool {
    let l = unicode_lower(path);
    has_sub(l, "\\temp\\ccc"@) || has_sub(l, "/temp/ccc"@) || starts_with(l, "c:\\ccc"@) || has_sub(
        l,
        "cccinformation services"@,
    ) || (has_sub(l, "programdata"@) && has_sub(l, "\\ccc"@))
}

pub fn is_ccc_related_path(path: &str) -> (b: bool)
    ensures
        b == ccc_related(path@),
{
    let l = crate::text::lower_chars(path);
    let s = l.as_slice();
    crate::text::contains_str(s, "\\temp\\ccc") || crate::text::contains_str(s, "/temp/ccc")
        || crate::text::starts_with_str(s, "c:\\ccc") || crate::text::contains_str(
        s,
        "cccinformation services",
    ) || (crate::text::contains_str(s, "programdata") && crate::text::contains_str(s, "\\ccc"))
}

pub open spec fn ccc_rule(rule: Seq<char>) -> bool {
    rule == "ccc_temp"@ || rule == "ccc_path"@ || rule == "ccc_workfiles"@ || rule
        == "ccc_programdata"@ || rule == "ccc_autodiscovered"@
}

/// Files matched by a CCC watch rule are recorded even outside CCC-looking paths.
pub fn should_record_from_rule(rule: &str) -> (b: bool)
    ensures
        b == ccc_rule(rule@),
{
    let v = crate::text::chars_of(rule);
    let s = v.as_slice();
    crate::text::eq_str(s, "ccc_temp") || crate::text::eq_str(s, "ccc_path") || crate::text::eq_str(
        s,
        "ccc_workfiles",
    ) || crate::text::eq_str(s, "ccc_programdata") || crate::text::eq_str(s, "ccc_autodiscovered")
}

/// The recent CCC files, oldest first, with when each was seen.
pub struct CccSeenRing {
    pub entries: Vec<(u64, String)>,
}

pub open spec fn seen_view(v: Seq<(u64, String)>) -> Seq<(u64, Seq<char>)> {
    v.map_values(|p: (u64, String)| (p.0, p.1@))
}

/// The ring after `path` is seen at `now`: unchanged when the path is neither CCC-related
/// nor matched by a CCC rule, or when it is the last path recorded less than 400 ms ago;
/// else appended, keeping the last 20.
/// Whether `path` seen at `now` is recorded: it is CCC-related or matched by a CCC rule,
/// and not the last path recorded less than 400 ms ago.
pub open spec fn seen_records(v: Seq<(u64, Seq<char>)>, path: Seq<char>, rule: Option<Seq<char>>, now: u64) -> bool {
    let rule_ok = match rule {
        Some(r) => ccc_rule(r),
        None => false,
    };
    &&& (ccc_related(path) || rule_ok)
    &&& !(v.len() > 0 && v.last().1 == path && crate::services::ccc_batch::elapsed(now, v.last().0)
        < SEEN_REPEAT_MS)
}

pub open spec fn seen_after(v: Seq<(u64, Seq<char>)>, path: Seq<char>, rule: Option<Seq<char>>, now: u64) -> Seq<
    (u64, Seq<char>),
> {
    let rule_ok = match rule {
        Some(r) => ccc_rule(r),
        None => false,
    };
    if !ccc_related(path) && !rule_ok {
        v
    } else if v.len() > 0 && v.last().1 == path && crate::services::ccc_batch::elapsed(now, v.last().0)
        < SEEN_REPEAT_MS {
        v
    } else {
        let all = v.push((now, path));
        if all.len() > SEEN_MAX {
            all.skip(all.len() - SEEN_MAX)
        } else {
            all
        }
    }
}

impl CccSeenRing {
    /// The ring holds at most `SEEN_MAX` files.
    pub open spec fn wf(&self) -> bool {
        self.entries@.len() <= SEEN_MAX
    }

    pub fn new() -> (r: Self)
        ensures
            r.entries@.len() == 0,
            r.wf(),
    {
        CccSeenRing { entries: Vec::new() }
    }

    /// Records a PDF or Office file seen under a watch root (see `seen_after`); returns
    /// whether it was recorded.
    pub fn record_ccc_file_seen(&mut self, path: &str, matched_rule: Option<&str>, now: u64) -> (recorded: bool)
        ensures
            seen_view(final(self).entries@) == seen_after(
                seen_view(old(self).entries@),
                path@,
                match matched_rule {
                    Some(r) => Some(r@),
                    None => None,
                },
                now,
            ),
            recorded == seen_records(
                seen_view(old(self).entries@),
                path@,
                match matched_rule {
                    Some(r) => Some(r@),
                    None => None,
                },
                now,
            ),
            recorded ==> final(self).entries@.len() > 0 && final(self).entries@.last().1@ == path@
                && final(self).entries@.len() <= SEEN_MAX,
            old(self).wf() ==> final(self).wf(),
    {
        let rule_ok = match matched_rule {
            Some(r) => should_record_from_rule(r),
            None => false,
        };
        if !is_ccc_related_path(path) && !rule_ok {
            return false;
        }
        let n = self.entries.len();
        if n > 0 {
            let lv = crate::text::chars_of(self.entries[n - 1].1.as_str());
            let pv = crate::text::chars_of(path);
            let age = crate::services::ccc_batch::elapsed_ms(now, self.entries[n - 1].0);
            assert(seen_view(self.entries@).last() == (self.entries@[n - 1].0, self.entries@[n - 1].1@));
            if crate::text::chars_eq(lv.as_slice(), pv.as_slice()) && age < SEEN_REPEAT_MS {
                return false;
            }
        }
        let ghost all = seen_view(self.entries@).push((now, path@));
        self.entries.push((now, String::from_str(path)));
        assert(seen_view(self.entries@) =~= all);
        let ghost mut dropped: int = 0;
        while self.entries.len() > SEEN_MAX
            invariant
                0 <= dropped <= all.len(),
                seen_view(self.entries@) == all.skip(dropped),
                all.len() > SEEN_MAX ==> dropped <= all.len() - SEEN_MAX,
                all.len() <= SEEN_MAX ==> dropped == 0,
            decreases self.entries@.len(),
        {
            let ghost before = seen_view(self.entries@);
            self.entries.remove(0);
            assert(seen_view(self.entries@) =~= before.drop_first());
            assert(seen_view(self.entries@) =~= all.skip(dropped + 1));
            proof {
                dropped = dropped + 1;
            }
        }
        proof {
            let k = self.entries@.len() - 1;
            assert(all.skip(dropped).len() == all.len() - dropped);
            assert(self.entries@.len() > 0);
            assert(seen_view(self.entries@)[k] == all[dropped + k]);
            assert(all[all.len() - 1] == (now, path@));
            assert(seen_view(self.entries@)[k] == (self.entries@[k].0, self.entries@[k].1@));
        }
        true
    }

    /// The recent CCC paths, oldest first.
    pub fn last_ccc_files_seen(&self) -> (r: Vec<String>)
        ensures
            crate::text::views(r@) == seen_view(self.entries@).map_values(|p: (u64, Seq<char>)| p.1),
    {
        let mut r: Vec<String> = Vec::new();
        let mut i: usize = 0;
        while i < self.entries.len()
            invariant
                i <= self.entries@.len(),
                crate::text::views(r@) == seen_view(self.entries@).map_values(
                    |p: (u64, Seq<char>)| p.1,
                ).take(i as int),
            decreases self.entries@.len() - i,
        {
            let ghost prev = crate::text::views(r@);
            r.push(self.entries[i].1.clone());
            assert(crate::text::views(r@) =~= prev.push(self.entries@[i as int].1@));
            assert(seen_view(self.entries@).map_values(|p: (u64, Seq<char>)| p.1).take(i + 1)
                =~= seen_view(self.entries@).map_values(|p: (u64, Seq<char>)| p.1).take(
                i as int,
            ).push(self.entries@[i as int].1@));
            i = i + 1;
        }
        assert(seen_view(self.entries@).map_values(|p: (u64, Seq<char>)| p.1).take(
            self.entries@.len() as int,
        ) =~= seen_view(self.entries@).map_values(|p: (u64, Seq<char>)| p.1));
        r
    }
}

pub struct CccCaptureTestResult {
    pub ok: bool,
    pub path: Option<String>,
    pub waited_ms: u64,
    pub message: String,
    pub roots_scanned: Vec<String>,
}

/// The capture test waits `requested` seconds clamped to 5..=300.
pub fn capture_test_timeout_secs(requested: u64) -> (r: u64)
    ensures
        r == if requested < 5 {
            5
        } else if requested > 300 {
            300
        } else {
            requested
        },
{
    if requested < 5 {
        5
    } else if requested > 300 {
        300
    } else {
        requested
    }
}

/// A new PDF appeared.
pub fn capture_test_hit(path: String, waited_ms: u64, roots_scanned: Vec<String>) -> (r: CccCaptureTestResult)
    ensures
        r.ok,
        crate::ccc_package_sync::opt_view(r.path) == Some(path@),
        r.waited_ms == waited_ms,
        r.message@ == "New PDF appeared under CCC-related roots"@,
        r.roots_scanned@ == roots_scanned@,
{
    CccCaptureTestResult {
        ok: true,
        path: Some(path),
        waited_ms,
        message: String::from_str("New PDF appeared under CCC-related roots"),
        roots_scanned,
    }
}

/// No new PDF within the timeout.
pub fn capture_test_miss(timeout_secs: u64, initial_count: usize, waited_ms: u64, roots_scanned: Vec<String>) -> (r:
    CccCaptureTestResult)
    ensures
        !r.ok,
        r.path is None,
        r.waited_ms == waited_ms,
        r.message@ == "No new PDF under CCC roots within "@ + crate::text::decimal(
            (if timeout_secs < 1 {
                1
            } else {
                timeout_secs
            }) as nat,
        ) + "s (initial baseline had "@ + crate::text::decimal(initial_count as nat)
            + " PDFs)"@,
        r.roots_scanned@ == roots_scanned@,
{
    let mut m = String::from_str("No new PDF under CCC roots within ");
    let t = crate::text::u64_to_string(
        if timeout_secs < 1 {
            1
        } else {
            timeout_secs
        },
    );
    m.append(t.as_str());
    m.append("s (initial baseline had ");
    let c = crate::text::u64_to_string(initial_count as u64);
    m.append(c.as_str());
    m.append(" PDFs)");
    CccCaptureTestResult { ok: false, path: None, waited_ms, message: m, roots_scanned }
}

} // verus!

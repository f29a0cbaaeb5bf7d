//! The diagnostic flight recorder's bookkeeping: the ring of recent file events, the
//! events shown when Word starts, and which Word processes and focus changes are new.
//! Watching, process listing and the log file are the caller's.
use vstd::prelude::*;
use crate::text::{has_sub, str_to_lowercase, unicode_lower};

verus! {

/// File events kept.
pub const RING_CAP: usize = 800;

/// How far back before a Word launch events are reported.
pub const WORD_LOOKBACK_MS: u128 = 3_000;

/// At most this many events are reported per Word launch.
pub const RECENT_IN_CONTEXT: usize = 20;

pub struct FileEventRecord {
    pub time: u128,
    pub event_type: String,
    pub full_path: String,
    pub extension: String,
    pub size: Option<u64>,
}

impl FileEventRecord {
    pub fn duplicate(&self) -> (r: Self)
        ensures
            r.time == self.time,
            r.event_type@ == self.event_type@,
            r.full_path@ == self.full_path@,
            r.extension@ == self.extension@,
            r.size == self.size,
    {
        FileEventRecord {
            time: self.time,
            event_type: self.event_type.clone(),
            full_path: self.full_path.clone(),
            extension: self.extension.clone(),
            size: self.size,
        }
    }
}

pub open spec fn watched_ext(e: Seq<char>) -> bool {
    e == "doc"@ || e == "docx"@ || e == "rtf"@ || e == "tmp"@ || e == "pdf"@
}

/// The lower-cased extension of a path when it is one the recorder keeps (`doc`,
/// `docx`, `rtf`, `tmp`, `pdf`).
pub open spec fn allowed_ext(path: Seq<char>) -> Option<Seq<char>> {
    match crate::paths::extension(path) {
        Some(e) => if watched_ext(unicode_lower(e)) {
            Some(unicode_lower(e))
        } else {
            None
        },
        None => None,
    }
}

pub fn extension_allowed(path: &str) -> (r: Option<String>)
    ensures
        crate::ccc_package_sync::opt_view(r) == allowed_ext(path@),
{
    let pv = crate::text::chars_of(path);
    match crate::paths::extension_exec(pv.as_slice()) {
        Some(e) => {
            let es = crate::text::string_of(e.as_slice());
            let l = str_to_lowercase(es.as_str());
            let lv = crate::text::chars_of(l.as_str());
            let s = lv.as_slice();
            if crate::text::eq_str(s, "doc") || crate::text::eq_str(s, "docx") || crate::text::eq_str(
                s,
                "rtf",
            ) || crate::text::eq_str(s, "tmp") || crate::text::eq_str(s, "pdf") {
                Some(l)
            } else {
                None
            }
        },
        None => None,
    }
}

/// The event times of a ring, oldest first.
pub open spec fn times(v: Seq<FileEventRecord>) -> Seq<u128> {
    v.map_values(|e: FileEventRecord| e.time)
}

/// Adds an event; the oldest are dropped beyond `RING_CAP`.
pub fn push_file_event(ring: &mut Vec<FileEventRecord>, rec: FileEventRecord)
    ensures
        ({
            let all = old(ring)@.push(rec);
            final(ring)@ == if all.len() > RING_CAP {
                all.skip(all.len() - RING_CAP)
            } else {
                all
            }
        }),
{
    let ghost all = ring@.push(rec);
    ring.push(rec);
    let ghost mut dropped: int = 0;
    assert(ring@ =~= all.skip(0));
    while ring.len() > RING_CAP
        invariant
            0 <= dropped <= all.len(),
            ring@ == all.skip(dropped),
            all.len() > RING_CAP ==> dropped <= all.len() - RING_CAP,
            all.len() <= RING_CAP ==> dropped == 0,
        decreases ring@.len(),
    {
        let ghost before = ring@;
        ring.remove(0);
        assert(ring@ =~= all.skip(dropped + 1));
        proof {
            dropped = dropped + 1;
        }
    }
}

/// Two records with the same fields.
pub open spec fn same_event(a: FileEventRecord, b: FileEventRecord) -> bool {
    a.time == b.time && a.event_type@ == b.event_type@ && a.full_path@ == b.full_path@
        && a.extension@ == b.extension@ && a.size == b.size
}

/// The events no older than `WORD_LOOKBACK_MS` before `launch` and not after it, in order.
pub open spec fn in_window(v: Seq<FileEventRecord>, launch: u128) -> Seq<FileEventRecord> {
    let cutoff = if launch >= WORD_LOOKBACK_MS {
        launch - WORD_LOOKBACK_MS
    } else {
        0
    };
    v.filter(|e: FileEventRecord| cutoff <= e.time && e.time <= launch)
}

/// The last `RECENT_IN_CONTEXT` of them.
pub open spec fn recent_for_launch(v: Seq<FileEventRecord>, launch: u128) -> Seq<FileEventRecord> {
    let w = in_window(v, launch);
    if w.len() > RECENT_IN_CONTEXT {
        w.skip(w.len() - RECENT_IN_CONTEXT)
    } else {
        w
    }
}

/// The file events shown with a Word launch (see `recent_for_launch`).
pub fn collect_recent_for_word_launch(ring: &Vec<FileEventRecord>, launch_ms: u128) -> (r: Vec<
    FileEventRecord,
>)
    ensures
        times(r@) == times(recent_for_launch(ring@, launch_ms)),
        r@.len() == recent_for_launch(ring@, launch_ms).len(),
        forall|i: int|
            0 <= i < r@.len() ==> same_event(#[trigger] r@[i], recent_for_launch(ring@, launch_ms)[i]),
{
    let cutoff: u128 = if launch_ms >= WORD_LOOKBACK_MS {
        launch_ms - WORD_LOOKBACK_MS
    } else {
        0
    };
    let ghost f = |e: FileEventRecord| cutoff <= e.time && e.time <= launch_ms;
    let mut idx: Vec<usize> = Vec::new();
    let mut i: usize = 0;
    while i < ring.len()
        invariant
            i <= ring@.len(),
            cutoff == (if launch_ms >= WORD_LOOKBACK_MS {
                launch_ms - WORD_LOOKBACK_MS
            } else {
                0
            }),
            idx@.len() == ring@.take(i as int).filter(
                |e: FileEventRecord| cutoff <= e.time && e.time <= launch_ms,
            ).len(),
            forall|k: int|
                0 <= k < idx@.len() ==> #[trigger] idx@[k] < i && ring@[idx@[k] as int] == ring@.take(
                    i as int,
                ).filter(|e: FileEventRecord| cutoff <= e.time && e.time <= launch_ms)[k],
        decreases ring@.len() - i,
    {
        let ghost t = ring@.take(i as int);
        assert(ring@.take(i + 1) =~= t.push(ring@[i as int]));
        proof {
            t.lemma_filter_push(
                ring@[i as int],
                |e: FileEventRecord| cutoff <= e.time && e.time <= launch_ms,
            );
        }
        if cutoff <= ring[i].time && ring[i].time <= launch_ms {
            idx.push(i);
        }
        i = i + 1;
    }
    assert(ring@.take(ring@.len() as int) =~= ring@);
    let ghost w = in_window(ring@, launch_ms);
    let start: usize = if idx.len() > RECENT_IN_CONTEXT {
        idx.len() - RECENT_IN_CONTEXT
    } else {
        0
    };
    let mut out: Vec<FileEventRecord> = Vec::new();
    let mut k: usize = start;
    while k < idx.len()
        invariant
            start <= k <= idx@.len(),
            idx@.len() == w.len(),
            w == in_window(ring@, launch_ms),
            forall|j: int| 0 <= j < idx@.len() ==> #[trigger] idx@[j] < ring@.len() && ring@[idx@[j] as int] == w[j],
            out@.len() == k - start,
            forall|j: int|
                0 <= j < out@.len() ==> #[trigger] out@[j].time == w[start + j].time && out@[j].full_path@
                    == w[start + j].full_path@ && out@[j].event_type@ == w[start + j].event_type@
                    && out@[j].extension@ == w[start + j].extension@ && out@[j].size == w[start + j].size,
        decreases idx@.len() - k,
    {
        let e = ring[idx[k]].duplicate();
        out.push(e);
        k = k + 1;
    }
    let ghost rl = recent_for_launch(ring@, launch_ms);
    assert(rl =~= w.skip(start as int));
    assert(times(out@) =~= times(rl));
    assert forall|j: int| 0 <= j < out@.len() implies same_event(#[trigger] out@[j], rl[j]) by {
        assert(rl[j] == w[start + j]);
        assert(out@[j].time == w[start + j].time);
    }
    out
}

/// Whether a process or executable name is Word's (contains `winword`, compared
/// lower-cased).
pub open spec fn is_winword(name: Seq<char>) -> bool {
    has_sub(unicode_lower(name), "winword"@)
}

pub fn is_winword_name(name: &str) -> (b: bool)
    ensures
        b == is_winword(name@),
{
    let l = crate::text::lower_chars(name);
    crate::text::contains_str(l.as_slice(), "winword")
}

/// Word processes already reported, and the Word window focused last.
pub struct WinwordTracker {
    pub seen: Vec<u32>,
    pub last_focus: Option<(u64, String)>,
}

impl WinwordTracker {
    pub fn new() -> (r: Self)
        ensures
            r.seen@.len() == 0,
            r.last_focus is None,
    {
        WinwordTracker { seen: Vec::new(), last_focus: None }
    }

    /// A Word window is focused: whether it differs (by process and title) from the
    /// last one reported, which it then becomes.
    pub fn focus_changed(&mut self, pid: u64, title: &str) -> (changed: bool)
        ensures
            changed == match old(self).last_focus {
                Some((p, t)) => !(p == pid && t@ == title@),
                None => true,
            },
            changed ==> (final(self).last_focus matches Some((p, t)) && p == pid && t@ == title@),
            !changed ==> final(self).last_focus == old(self).last_focus,
            final(self).seen == old(self).seen,
    {
        let same = match &self.last_focus {
            Some((p, t)) => {
                let a = crate::text::chars_of(t.as_str());
                let b = crate::text::chars_of(title);
                *p == pid && crate::text::chars_eq(a.as_slice(), b.as_slice())
            },
            None => false,
        };
        if same {
            false
        } else {
            self.last_focus = Some((pid, String::from_str(title)));
            true
        }
    }

    /// One poll of the running Word processes: returns those not reported before (in
    /// the order given, each once), then forgets processes that are gone.
    pub fn new_launches(&mut self, winword_pids: &Vec<u32>) -> (launched: Vec<u32>)
        ensures
            forall|i: int| 0 <= i < launched@.len() ==> winword_pids@.contains(#[trigger] launched@[i]),
            forall|i: int| 0 <= i < launched@.len() ==> !old(self).seen@.contains(#[trigger] launched@[i]),
            forall|i: int, j: int| 0 <= i < j < launched@.len() ==> launched@[i] != launched@[j],
            forall|p: u32| #[trigger] winword_pids@.contains(p) && !old(self).seen@.contains(p) ==> launched@.contains(p),
            forall|p: u32| #[trigger] final(self).seen@.contains(p) <==> winword_pids@.contains(p),
            final(self).last_focus == old(self).last_focus,
    {
        let mut launched: Vec<u32> = Vec::new();
        let mut i: usize = 0;
        while i < winword_pids.len()
            invariant
                i <= winword_pids@.len(),
                self.last_focus == old(self).last_focus,
                forall|p: u32| #[trigger] self.seen@.contains(p) <==> (old(self).seen@.contains(p) || winword_pids@.take(i as int).contains(p)),
                forall|k: int| 0 <= k < launched@.len() ==> winword_pids@.contains(#[trigger] launched@[k]),
                forall|k: int| 0 <= k < launched@.len() ==> !old(self).seen@.contains(#[trigger] launched@[k]),
                forall|a: int, b: int| 0 <= a < b < launched@.len() ==> launched@[a] != launched@[b],
                forall|p: u32| #[trigger] winword_pids@.take(i as int).contains(p) && !old(self).seen@.contains(p) ==> launched@.contains(p),
                forall|k: int| 0 <= k < launched@.len() ==> self.seen@.contains(#[trigger] launched@[k]),
            decreases winword_pids@.len() - i,
        {
            let pid = winword_pids[i];
            let ghost t1 = winword_pids@.take(i + 1);
            assert(t1 =~= winword_pids@.take(i as int).push(pid));
            if !contains_u32(&self.seen, pid) {
                let ghost s0 = self.seen@;
                let ghost l0 = launched@;
                self.seen.push(pid);
                launched.push(pid);
                assert(self.seen@ == s0.push(pid));
                assert forall|p: u32| #[trigger] self.seen@.contains(p) <==> (old(self).seen@.contains(p) || t1.contains(p)) by {
                    if self.seen@.contains(p) {
                        let k = choose|k: int| 0 <= k < self.seen@.len() && self.seen@[k] == p;
                        if k < s0.len() {
                            assert(s0.contains(p));
                        } else {
                            assert(t1[i as int] == p);
                        }
                    }
                    if t1.contains(p) && !old(self).seen@.contains(p) {
                        let k = choose|k: int| 0 <= k < i + 1 && t1[k] == p;
                        if k < i {
                            assert(winword_pids@.take(i as int)[k] == p);
                            assert(s0.contains(p));
                            let m = choose|m: int| 0 <= m < s0.len() && s0[m] == p;
                            assert(self.seen@[m] == p);
                        } else {
                            assert(self.seen@[s0.len() as int] == p);
                        }
                    }
                    if old(self).seen@.contains(p) {
                        assert(s0.contains(p));
                        let m = choose|m: int| 0 <= m < s0.len() && s0[m] == p;
                        assert(self.seen@[m] == p);
                    }
                }
                assert forall|p: u32| #[trigger] t1.contains(p) && !old(self).seen@.contains(p) implies launched@.contains(p) by {
                    let k = choose|k: int| 0 <= k < i + 1 && t1[k] == p;
                    if k < i {
                        assert(winword_pids@.take(i as int)[k] == p);
                        assert(winword_pids@.take(i as int).contains(p));
                        assert(l0.contains(p));
                        let m = choose|m: int| 0 <= m < l0.len() && l0[m] == p;
                        assert(launched@[m] == p);
                    } else {
                        assert(launched@[l0.len() as int] == p);
                    }
                }
                assert forall|a: int, b: int| 0 <= a < b < launched@.len() implies launched@[a] != launched@[b] by {
                    if b == l0.len() {
                        assert(s0.contains(l0[a]));
                    }
                }
                assert forall|k: int| 0 <= k < launched@.len() implies winword_pids@.contains(#[trigger] launched@[k]) by {
                    if k == l0.len() {
                        assert(winword_pids@[i as int] == pid);
                    }
                }
                assert forall|k: int| 0 <= k < launched@.len() implies self.seen@.contains(#[trigger] launched@[k]) by {
                    if k < l0.len() {
                        let m = choose|m: int| 0 <= m < s0.len() && s0[m] == l0[k];
                        assert(self.seen@[m] == l0[k]);
                    } else {
                        assert(self.seen@[s0.len() as int] == pid);
                    }
                }
            } else {
                assert forall|p: u32| #[trigger] self.seen@.contains(p) <==> (old(self).seen@.contains(p) || t1.contains(p)) by {
                    if t1.contains(p) {
                        let k = choose|k: int| 0 <= k < i + 1 && t1[k] == p;
                        if k < i {
                            assert(winword_pids@.take(i as int)[k] == p);
                        }
                    }
                }
                assert forall|p: u32| #[trigger] t1.contains(p) && !old(self).seen@.contains(p) implies launched@.contains(p) by {
                    let k = choose|k: int| 0 <= k < i + 1 && t1[k] == p;
                    if k < i {
                        assert(winword_pids@.take(i as int)[k] == p);
                        assert(winword_pids@.take(i as int).contains(p));
                    } else {
                        assert(p == pid);
                        assert(self.seen@.contains(pid));
                        assert(old(self).seen@.contains(pid) || winword_pids@.take(i as int).contains(pid));
                        assert(winword_pids@.take(i as int).contains(pid));
                    }
                }
            }
            i = i + 1;
        }
        assert(winword_pids@.take(winword_pids@.len() as int) =~= winword_pids@);
        let mut kept: Vec<u32> = Vec::new();
        let mut j: usize = 0;
        while j < self.seen.len()
            invariant
                j <= self.seen@.len(),
                forall|p: u32| #[trigger] kept@.contains(p) <==> (self.seen@.take(j as int).contains(p) && winword_pids@.contains(p)),
            decreases self.seen@.len() - j,
        {
            let p = self.seen[j];
            let ghost s1 = self.seen@.take(j + 1);
            assert(s1 =~= self.seen@.take(j as int).push(p));
            if contains_u32(winword_pids, p) {
                let ghost k0 = kept@;
                kept.push(p);
                assert forall|q: u32| #[trigger] kept@.contains(q) <==> (s1.contains(q) && winword_pids@.contains(q)) by {
                    if kept@.contains(q) {
                        let m = choose|m: int| 0 <= m < kept@.len() && kept@[m] == q;
                        if m < k0.len() {
                            assert(k0.contains(q));
                            let n = choose|n: int| 0 <= n < j && self.seen@.take(j as int)[n] == q;
                            assert(s1[n] == q);
                        } else {
                            assert(s1[j as int] == q);
                        }
                    }
                    if s1.contains(q) && winword_pids@.contains(q) {
                        let n = choose|n: int| 0 <= n < j + 1 && s1[n] == q;
                        if n < j {
                            assert(self.seen@.take(j as int)[n] == q);
                            assert(k0.contains(q));
                            let m = choose|m: int| 0 <= m < k0.len() && k0[m] == q;
                            assert(kept@[m] == q);
                        } else {
                            assert(kept@[k0.len() as int] == q);
                        }
                    }
                }
            } else {
                assert forall|q: u32| #[trigger] kept@.contains(q) <==> (s1.contains(q) && winword_pids@.contains(q)) by {
                    if s1.contains(q) && winword_pids@.contains(q) {
                        let n = choose|n: int| 0 <= n < j + 1 && s1[n] == q;
                        if n < j {
                            assert(self.seen@.take(j as int)[n] == q);
                        }
                    }
                }
            }
            j = j + 1;
        }
        assert(self.seen@.take(self.seen@.len() as int) =~= self.seen@);
        assert forall|p: u32| #[trigger] kept@.contains(p) <==> winword_pids@.contains(p) by {
            if winword_pids@.contains(p) {
                assert(winword_pids@.take(winword_pids@.len() as int) =~= winword_pids@);
            }
        }
        self.seen = kept;
        launched
    }
}

fn contains_u32(v: &Vec<u32>, x: u32) -> (b: bool)
    ensures
        b == v@.contains(x),
{
    let mut i: usize = 0;
    while i < v.len()
        invariant
            i <= v@.len(),
            forall|j: int| 0 <= j < i ==> v@[j] != x,
        decreases v@.len() - i,
    {
        if v[i] == x {
            assert(v@[i as int] == x);
            return true;
        }
        i = i + 1;
    }
    false
}

} // verus!

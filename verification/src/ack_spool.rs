//! Durable CCC package ack retry queue: acks whose POST failed wait here (at most
//! `MAX_ENTRIES`, one entry per queue id, oldest first) until a later batch succeeds.
use vstd::prelude::*;

verus! {

pub const MAX_ENTRIES: usize = 500;

pub struct AckSpoolEntry {
    pub queue_id: String,
    pub source_table: String,
    pub source_id: String,
    pub status: String,
    pub error_message: Option<String>,
    pub written_path: Option<String>,
    pub sub_folder: Option<String>,
    pub action_type: Option<String>,
    pub enqueued_unix_ms: i64,
    pub attempts: u32,
    pub last_error: String,
}

/// An entry as plain values.
pub struct AckView {
    pub queue_id: Seq<char>,
    pub source_table: Seq<char>,
    pub source_id: Seq<char>,
    pub status: Seq<char>,
    pub error_message: Option<Seq<char>>,
    pub written_path: Option<Seq<char>>,
    pub sub_folder: Option<Seq<char>>,
    pub action_type: Option<Seq<char>>,
    pub enqueued_unix_ms: i64,
    pub attempts: u32,
    pub last_error: Seq<char>,
}

pub open spec fn ov(o: Option<String>) -> Option<Seq<char>> {
    match o {
        Some(s) => Some(s@),
        None => None,
    }
}

impl View for AckSpoolEntry {
    type V = AckView;

    open spec fn view(&self) -> AckView {
        AckView {
            queue_id: self.queue_id@,
            source_table: self.source_table@,
            source_id: self.source_id@,
            status: self.status@,
            error_message: ov(self.error_message),
            written_path: ov(self.written_path),
            sub_folder: ov(self.sub_folder),
            action_type: ov(self.action_type),
            enqueued_unix_ms: self.enqueued_unix_ms,
            attempts: self.attempts,
            last_error: self.last_error@,
        }
    }
}

pub open spec fn spool_view(v: Seq<AckSpoolEntry>) -> Seq<AckView> {
    v.map_values(|e: AckSpoolEntry| e@)
}

/// Queue ids are distinct.
pub open spec fn distinct_ids(v: Seq<AckView>) -> bool {
    forall|i: int, j: int| 0 <= i < j < v.len() ==> #[trigger] v[i].queue_id != #[trigger] v[j].queue_id
}

/// The index of the first entry with queue id `q`.
pub open spec fn index_of(v: Seq<AckView>, q: Seq<char>) -> Option<int>
    decreases v.len(),
{
    if v.len() == 0 {
        None
    } else {
        match index_of(v.drop_last(), q) {
            Some(i) => Some(i),
            None => if v.last().queue_id == q {
                Some(v.len() - 1)
            } else {
                None
            },
        }
    }
}

/// Retrying an entry that is already queued: one more attempt (saturating), the new
/// error, and the new written path / error message when given.
pub open spec fn merged(old: AckView, e: AckView, last_error: Seq<char>) -> AckView {
    AckView {
        attempts: if old.attempts == u32::MAX {
            u32::MAX
        } else {
            (old.attempts + 1) as u32
        },
        last_error,
        written_path: if e.written_path is Some {
            e.written_path
        } else {
            old.written_path
        },
        error_message: if e.error_message is Some {
            e.error_message
        } else {
            old.error_message
        },
        ..old
    }
}

/// A new entry: enqueued now, first attempt, with the error.
pub open spec fn fresh(e: AckView, last_error: Seq<char>, now: i64) -> AckView {
    AckView { enqueued_unix_ms: now, attempts: 1, last_error, ..e }
}

pub open spec fn enqueue_one(v: Seq<AckView>, e: AckView, last_error: Seq<char>, now: i64) -> Seq<
    AckView,
> {
    match index_of(v, e.queue_id) {
        Some(i) => v.update(i, merged(v[i], e, last_error)),
        None => v.push(fresh(e, last_error, now)),
    }
}

pub open spec fn enqueue_all(v: Seq<AckView>, es: Seq<AckView>, last_error: Seq<char>, now: i64) -> Seq<
    AckView,
>
    decreases es.len(),
{
    if es.len() == 0 {
        v
    } else {
        enqueue_one(enqueue_all(v, es.drop_last(), last_error, now), es.last(), last_error, now)
    }
}

/// The newest `MAX_ENTRIES` entries.
pub open spec fn capped(v: Seq<AckView>) -> Seq<AckView> {
    if v.len() > MAX_ENTRIES {
        v.skip(v.len() - MAX_ENTRIES)
    } else {
        v
    }
}

proof fn lemma_index_of(v: Seq<AckView>, q: Seq<char>)
    ensures
        match index_of(v, q) {
            Some(i) => 0 <= i < v.len() && v[i].queue_id == q && forall|j: int|
                0 <= j < i ==> #[trigger] v[j].queue_id != q,
            None => forall|j: int| 0 <= j < v.len() ==> #[trigger] v[j].queue_id != q,
        },
    decreases v.len(),
{
    if v.len() > 0 {
        lemma_index_of(v.drop_last(), q);
        assert(v.last() == v[v.len() - 1]);
        match index_of(v.drop_last(), q) {
            Some(i) => {
                assert(v.drop_last()[i] == v[i]);
                assert forall|j: int| 0 <= j < i implies #[trigger] v[j].queue_id != q by {
                    assert(v.drop_last()[j] == v[j]);
                }
            },
            None => {
                assert forall|j: int| 0 <= j < v.len() - 1 implies #[trigger] v[j].queue_id != q by {
                    assert(v.drop_last()[j] == v[j]);
                }
            },
        }
    }
}

proof fn lemma_enqueue_one_distinct(v: Seq<AckView>, e: AckView, le: Seq<char>, now: i64)
    requires
        distinct_ids(v),
    ensures
        distinct_ids(enqueue_one(v, e, le, now)),
{
    lemma_index_of(v, e.queue_id);
    let w = enqueue_one(v, e, le, now);
    match index_of(v, e.queue_id) {
        Some(i) => {
            assert forall|a: int, b: int| 0 <= a < b < w.len() implies #[trigger] w[a].queue_id
                != #[trigger] w[b].queue_id by {
                assert(v[a].queue_id != v[b].queue_id);
            }
        },
        None => {
            assert forall|a: int, b: int| 0 <= a < b < w.len() implies #[trigger] w[a].queue_id
                != #[trigger] w[b].queue_id by {
                if b == v.len() {
                    assert(v[a].queue_id != e.queue_id);
                } else {
                    assert(v[a].queue_id != v[b].queue_id);
                }
            }
        },
    }
}

fn dup_opt(o: &Option<String>) -> (r: Option<String>)
    ensures
        ov(r) == ov(*o),
{
    match o {
        Some(s) => Some(s.clone()),
        None => None,
    }
}

impl AckSpoolEntry {
    pub fn duplicate(&self) -> (r: Self)
        ensures
            r@ == self@,
    {
        AckSpoolEntry {
            queue_id: self.queue_id.clone(),
            source_table: self.source_table.clone(),
            source_id: self.source_id.clone(),
            status: self.status.clone(),
            error_message: dup_opt(&self.error_message),
            written_path: dup_opt(&self.written_path),
            sub_folder: dup_opt(&self.sub_folder),
            action_type: dup_opt(&self.action_type),
            enqueued_unix_ms: self.enqueued_unix_ms,
            attempts: self.attempts,
            last_error: self.last_error.clone(),
        }
    }
}

/// A queue length as the `u32` count reported to callers (wrapping past `u32::MAX`).
pub(crate) fn pending_u32(n: usize) -> (r: u32)
    ensures
        r as int == n as int % 0x1_0000_0000,
{
    ((n as u64) % 0x1_0000_0000u64) as u32
}

fn find_queue_id(v: &Vec<AckSpoolEntry>, q: &String) -> (r: Option<usize>)
    ensures
        match r {
            Some(i) => index_of(spool_view(v@), q@) == Some(i as int) && i < v@.len(),
            None => index_of(spool_view(v@), q@) is None,
        },
{
    let mut i: usize = 0;
    while i < v.len()
        invariant
            i <= v.len(),
            forall|j: int| 0 <= j < i ==> #[trigger] spool_view(v@)[j].queue_id != q@,
        decreases v.len() - i,
    {
        if v[i].queue_id == *q {
            proof {
                let sv = spool_view(v@);
                lemma_index_of(sv, q@);
                assert(sv[i as int].queue_id == q@);
            }
            return Some(i);
        }
        i = i + 1;
    }
    proof {
        lemma_index_of(spool_view(v@), q@);
    }
    None
}

/// Adds a failed ack batch: entries already queued (by queue id) count one more attempt,
/// new ones are appended; then only the newest `MAX_ENTRIES` are kept. Returns the number
/// of pending entries.
pub fn enqueue_batch(spool: &mut Vec<AckSpoolEntry>, entries: Vec<AckSpoolEntry>, last_error: &str, now_ms: i64) -> (n: u32)
    ensures
        entries@.len() == 0 ==> final(spool)@ == old(spool)@,
        entries@.len() > 0 ==> spool_view(final(spool)@) == capped(
            enqueue_all(spool_view(old(spool)@), spool_view(entries@), last_error@, now_ms),
        ),
        distinct_ids(spool_view(old(spool)@)) ==> distinct_ids(spool_view(final(spool)@)),
        entries@.len() > 0 ==> final(spool)@.len() <= MAX_ENTRIES,
        n as int == final(spool)@.len() % 0x1_0000_0000,
{
    if entries.len() == 0 {
        return pending_u32(spool.len());
    }
    let mut k: usize = 0;
    while k < entries.len()
        invariant
            k <= entries.len(),
            spool_view(spool@) == enqueue_all(
                spool_view(old(spool)@),
                spool_view(entries@).take(k as int),
                last_error@,
                now_ms,
            ),
            distinct_ids(spool_view(old(spool)@)) ==> distinct_ids(spool_view(spool@)),
        decreases entries.len() - k,
    {
        let e = entries[k].duplicate();
        let ghost before = spool_view(spool@);
        assert(spool_view(entries@).take(k + 1).drop_last() =~= spool_view(entries@).take(k as int));
        assert(spool_view(entries@).take(k + 1).last() == e@);
        proof {
            if distinct_ids(before) {
                lemma_enqueue_one_distinct(before, e@, last_error@, now_ms);
            }
        }
        match find_queue_id(spool, &e.queue_id) {
            Some(i) => {
                let mut cur = spool[i].duplicate();
                cur.attempts = cur.attempts.saturating_add(1);
                cur.last_error = String::from_str(last_error);
                if e.written_path.is_some() {
                    cur.written_path = e.written_path;
                }
                if e.error_message.is_some() {
                    cur.error_message = e.error_message;
                }
                spool.set(i, cur);
                assert(spool_view(spool@) =~= before.update(
                    i as int,
                    merged(before[i as int], e@, last_error@),
                ));
            },
            None => {
                let mut fresh_e = e;
                fresh_e.enqueued_unix_ms = now_ms;
                fresh_e.attempts = 1;
                fresh_e.last_error = String::from_str(last_error);
                spool.push(fresh_e);
                assert(spool_view(spool@) =~= before.push(fresh(e@, last_error@, now_ms)));
            },
        }
        k = k + 1;
    }
    assert(spool_view(entries@).take(entries.len() as int) =~= spool_view(entries@));
    let ghost full = spool_view(spool@);
    if spool.len() > MAX_ENTRIES {
        let drop = spool.len() - MAX_ENTRIES;
        let mut kept: Vec<AckSpoolEntry> = Vec::new();
        let mut j: usize = drop;
        while j < spool.len()
            invariant
                drop <= j <= spool.len(),
                spool_view(spool@) == full,
                drop == spool.len() - MAX_ENTRIES,
                spool_view(kept@) == full.subrange(drop as int, j as int),
            decreases spool.len() - j,
        {
            let ghost prev = spool_view(kept@);
            kept.push(spool[j].duplicate());
            assert(spool_view(kept@) =~= prev.push(full[j as int]));
            assert(full.subrange(drop as int, j + 1) =~= full.subrange(drop as int, j as int).push(
                full[j as int],
            ));
            j = j + 1;
        }
        *spool = kept;
        assert(spool_view(spool@) =~= full.skip(drop as int));
        proof {
            if distinct_ids(full) {
                assert forall|a: int, b: int| 0 <= a < b < spool_view(spool@).len() implies #[trigger] spool_view(spool@)[a].queue_id
                    != #[trigger] spool_view(spool@)[b].queue_id by {
                    assert(full[a + drop].queue_id != full[b + drop].queue_id);
                }
            }
        }
    }
    pending_u32(spool.len())
}

/// Takes the first `limit` entries (all when fewer) out of the spool, oldest first.
pub fn claim_batch(spool: &mut Vec<AckSpoolEntry>, limit: usize) -> (batch: Vec<AckSpoolEntry>)
    ensures
        ({
            let n = if limit < old(spool)@.len() {
                limit as int
            } else {
                old(spool)@.len() as int
            };
            &&& spool_view(batch@) == spool_view(old(spool)@).take(n)
            &&& spool_view(final(spool)@) == spool_view(old(spool)@).skip(n)
        }),
        distinct_ids(spool_view(old(spool)@)) ==> distinct_ids(spool_view(final(spool)@)),
{
    let n = if limit < spool.len() {
        limit
    } else {
        spool.len()
    };
    let ghost full = spool_view(spool@);
    let mut batch: Vec<AckSpoolEntry> = Vec::new();
    let mut rest: Vec<AckSpoolEntry> = Vec::new();
    let mut j: usize = 0;
    while j < spool.len()
        invariant
            j <= spool.len(),
            n <= spool.len(),
            spool_view(spool@) == full,
            spool_view(batch@) == full.take(if j < n {
                j as int
            } else {
                n as int
            }),
            spool_view(rest@) == if j < n {
                Seq::<AckView>::empty()
            } else {
                full.subrange(n as int, j as int)
            },
        decreases spool.len() - j,
    {
        let e = spool[j].duplicate();
        if j < n {
            let ghost prev = spool_view(batch@);
            batch.push(e);
            assert(spool_view(batch@) =~= prev.push(full[j as int]));
            assert(full.take(j + 1) =~= full.take(j as int).push(full[j as int]));
            if j + 1 == n {
                assert(full.subrange(n as int, n as int) =~= Seq::<AckView>::empty());
            }
        } else {
            let ghost prev = spool_view(rest@);
            rest.push(e);
            assert(spool_view(rest@) =~= prev.push(full[j as int]));
            assert(full.subrange(n as int, j + 1) =~= full.subrange(n as int, j as int).push(
                full[j as int],
            ));
        }
        j = j + 1;
    }
    if n == spool.len() {
        assert(full.subrange(n as int, n as int) =~= Seq::<AckView>::empty());
    }
    *spool = rest;
    assert(spool_view(spool@) =~= full.skip(n as int));
    proof {
        if distinct_ids(full) {
            assert forall|a: int, b: int| 0 <= a < b < spool_view(spool@).len() implies #[trigger] spool_view(spool@)[a].queue_id
                != #[trigger] spool_view(spool@)[b].queue_id by {
                assert(full[a + n].queue_id != full[b + n].queue_id);
            }
        }
    }
    batch
}

/// The entries whose queue id is not among `ids`, in order.
pub open spec fn without_ids(v: Seq<AckView>, ids: Seq<Seq<char>>) -> Seq<AckView>
    decreases v.len(),
{
    if v.len() == 0 {
        v
    } else if ids.contains(v.last().queue_id) {
        without_ids(v.drop_last(), ids)
    } else {
        without_ids(v.drop_last(), ids).push(v.last())
    }
}

/// Removing acknowledged queue ids keeps only entries the spool held, and none of them
/// has an acknowledged id.
pub proof fn law_acked_ids_leave_the_spool(v: Seq<AckView>, ids: Seq<Seq<char>>)
    ensures
        forall|i: int| 0 <= i < without_ids(v, ids).len() ==> (exists|j: int|
            0 <= j < v.len() && v[j] == #[trigger] without_ids(v, ids)[i]),
        forall|i: int| 0 <= i < without_ids(v, ids).len() ==> !ids.contains(#[trigger] without_ids(v, ids)[i].queue_id),
    decreases v.len(),
{
    if v.len() > 0 {
        law_acked_ids_leave_the_spool(v.drop_last(), ids);
        let w = without_ids(v.drop_last(), ids);
        assert forall|i: int| 0 <= i < w.len() implies (exists|j: int| 0 <= j < v.len() && v[j] == #[trigger] w[i]) by {
            let j = choose|j: int| 0 <= j < v.drop_last().len() && v.drop_last()[j] == w[i];
            assert(v[j] == w[i]);
        }
        if !ids.contains(v.last().queue_id) {
            let r = w.push(v.last());
            assert forall|i: int| 0 <= i < r.len() implies (exists|j: int| 0 <= j < v.len() && v[j] == #[trigger] r[i]) by {
                if i == w.len() {
                    assert(v[v.len() - 1] == r[i]);
                } else {
                    assert(r[i] == w[i]);
                }
            }
        }
    }
}

/// Removing acknowledged queue ids keeps every entry whose id was not acknowledged.
pub proof fn law_unacked_entries_stay(v: Seq<AckView>, ids: Seq<Seq<char>>)
    ensures
        forall|j: int| 0 <= j < v.len() && !ids.contains(#[trigger] v[j].queue_id) ==> without_ids(v, ids).contains(v[j]),
    decreases v.len(),
{
    if v.len() > 0 {
        law_unacked_entries_stay(v.drop_last(), ids);
        let w = without_ids(v.drop_last(), ids);
        assert forall|j: int| 0 <= j < v.len() && !ids.contains(#[trigger] v[j].queue_id) implies without_ids(v, ids).contains(v[j]) by {
            if j == v.len() - 1 {
                assert(without_ids(v, ids) == w.push(v.last()));
                assert(w.push(v.last())[w.len() as int] == v[j]);
            } else {
                assert(v.drop_last()[j] == v[j]);
                assert(w.contains(v[j]));
                let k = choose|k: int| 0 <= k < w.len() && w[k] == v[j];
                if !ids.contains(v.last().queue_id) {
                    assert(w.push(v.last())[k] == v[j]);
                }
            }
        }
    }
}

/// Claiming a batch loses nothing: the claimed entries followed by those left are the
/// spool as it was.
pub proof fn law_claim_splits_the_spool(v: Seq<AckView>, n: int)
    requires
        0 <= n <= v.len(),
    ensures
        v.take(n) + v.skip(n) == v,
{
    assert(v.take(n) + v.skip(n) =~= v);
}

fn ids_contain(ids: &Vec<String>, q: &String) -> (b: bool)
    ensures
        b == crate::text::views(ids@).contains(q@),
{
    let mut i: usize = 0;
    while i < ids.len()
        invariant
            i <= ids.len(),
            forall|j: int| 0 <= j < i ==> crate::text::views(ids@)[j] != q@,
        decreases ids.len() - i,
    {
        if ids[i] == *q {
            assert(crate::text::views(ids@)[i as int] == q@);
            return true;
        }
        i = i + 1;
    }
    false
}

/// Removes the entries acknowledged in a later batch; returns the number still pending.
pub fn remove_by_queue_ids(spool: &mut Vec<AckSpoolEntry>, queue_ids: &Vec<String>) -> (n: u32)
    ensures
        spool_view(final(spool)@) == without_ids(spool_view(old(spool)@), crate::text::views(queue_ids@)),
        n as int == final(spool)@.len() % 0x1_0000_0000,
{
    let ghost full = spool_view(spool@);
    let ghost ids = crate::text::views(queue_ids@);
    let mut kept: Vec<AckSpoolEntry> = Vec::new();
    let mut j: usize = 0;
    while j < spool.len()
        invariant
            j <= spool.len(),
            spool_view(spool@) == full,
            ids == crate::text::views(queue_ids@),
            spool_view(kept@) == without_ids(full.take(j as int), ids),
        decreases spool.len() - j,
    {
        assert(full.take(j + 1).drop_last() =~= full.take(j as int));
        assert(full.take(j + 1).last() == full[j as int]);
        if !ids_contain(queue_ids, &spool[j].queue_id) {
            let ghost prev = spool_view(kept@);
            kept.push(spool[j].duplicate());
            assert(spool_view(kept@) =~= prev.push(full[j as int]));
        }
        j = j + 1;
    }
    assert(full.take(full.len() as int) =~= full);
    *spool = kept;
    pending_u32(spool.len())
}

} // verus!

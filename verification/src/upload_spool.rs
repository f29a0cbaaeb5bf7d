//! Durable outbound upload queue. Entries are keyed by file fingerprint; the web side
//! claims a batch, then acks or fails each entry by id.
use vstd::prelude::*;
use crate::ack_spool::pending_u32;
use crate::text::{is_ws, take_chars, trim, trim_string};

verus! {

/// After this many failed attempts an entry is dropped.
pub const MAX_ATTEMPTS: u32 = 10_000;

/// Longest error text kept on an entry.
pub const MAX_ERROR_CHARS: usize = 500;

pub struct SpoolEntry {
    pub id: String,
    pub file_path: String,
    pub fingerprint: String,
    pub source: String,
    pub enqueued_unix_ms: i64,
    pub attempts: u32,
    pub last_error: String,
}

pub struct SpoolView {
    pub id: Seq<char>,
    pub file_path: Seq<char>,
    pub fingerprint: Seq<char>,
    pub source: Seq<char>,
    pub enqueued_unix_ms: i64,
    pub attempts: u32,
    pub last_error: Seq<char>,
}

impl View for SpoolEntry {
    type V = SpoolView;

    open spec fn view(&self) -> SpoolView {
        SpoolView {
            id: self.id@,
            file_path: self.file_path@,
            fingerprint: self.fingerprint@,
            source: self.source@,
            enqueued_unix_ms: self.enqueued_unix_ms,
            attempts: self.attempts,
            last_error: self.last_error@,
        }
    }
}

impl SpoolEntry {
    pub fn duplicate(&self) -> (r: Self)
        ensures
            r@ == self@,
    {
        SpoolEntry {
            id: self.id.clone(),
            file_path: self.file_path.clone(),
            fingerprint: self.fingerprint.clone(),
            source: self.source.clone(),
            enqueued_unix_ms: self.enqueued_unix_ms,
            attempts: self.attempts,
            last_error: self.last_error.clone(),
        }
    }
}

pub open spec fn queue_view(v: Seq<SpoolEntry>) -> Seq<SpoolView> {
    v.map_values(|e: SpoolEntry| e@)
}

pub open spec fn has_fingerprint(v: Seq<SpoolView>, fp: Seq<char>) -> bool {
    exists|i: int| 0 <= i < v.len() && #[trigger] v[i].fingerprint == fp
}

pub open spec fn spool_label() -> Seq<char> {
    seq!['s', 'p', 'o', 'o', 'l']
}

pub open spec fn unknown_label() -> Seq<char> {
    seq!['u', 'n', 'k', 'n', 'o', 'w', 'n']
}

/// The entry a new enqueue appends.
pub open spec fn new_entry(file_path: Seq<char>, fingerprint: Seq<char>, source: Seq<char>, now: i64) -> SpoolView {
    SpoolView {
        id: trim(fingerprint),
        file_path: trim(file_path),
        fingerprint: trim(fingerprint),
        source: if trim(source).len() == 0 {
            spool_label()
        } else {
            trim(source)
        },
        enqueued_unix_ms: now,
        attempts: 0,
        last_error: Seq::empty(),
    }
}

/// The queue after enqueueing a file: unchanged when the (trimmed) fingerprint is
/// already queued, else the new entry appended.
pub open spec fn enqueued(v: Seq<SpoolView>, file_path: Seq<char>, fingerprint: Seq<char>, source: Seq<char>, now: i64) -> Seq<
    SpoolView,
> {
    if has_fingerprint(v, trim(fingerprint)) {
        v
    } else {
        v.push(new_entry(file_path, fingerprint, source, now))
    }
}

/// The entries whose id is not `key`, in order.
pub open spec fn without_id(v: Seq<SpoolView>, key: Seq<char>) -> Seq<SpoolView> {
    v.filter(|e: SpoolView| e.id != key)
}

/// The index of the first entry with id `key`.
pub open spec fn first_id(v: Seq<SpoolView>, key: Seq<char>) -> Option<int> {
    if exists|i: int| 0 <= i < v.len() && #[trigger] v[i].id == key {
        Some(
            choose|i: int|
                0 <= i < v.len() && #[trigger] v[i].id == key && forall|j: int|
                    0 <= j < i ==> #[trigger] v[j].id != key,
        )
    } else {
        None
    }
}

/// The error text stored on a failed entry.
pub open spec fn fail_text(error: Seq<char>) -> Seq<char> {
    if trim(error).len() == 0 {
        unknown_label()
    } else {
        take_chars(trim(error), MAX_ERROR_CHARS as nat)
    }
}

/// The queue after a failed upload of the first entry with id `key`: one more attempt
/// (saturating) and the error; every entry with that id is dropped once the attempts
/// reach `MAX_ATTEMPTS`. No entry with that id: unchanged.
pub open spec fn failed(v: Seq<SpoolView>, key: Seq<char>, error: Seq<char>) -> Seq<SpoolView> {
    match first_id(v, key) {
        None => v,
        Some(i) => {
            let attempts = if v[i].attempts == u32::MAX {
                u32::MAX
            } else {
                (v[i].attempts + 1) as u32
            };
            if attempts >= MAX_ATTEMPTS {
                without_id(v, key)
            } else {
                v.update(i, SpoolView { attempts, last_error: fail_text(error), ..v[i] })
            }
        },
    }
}

proof fn lemma_first_id(v: Seq<SpoolView>, key: Seq<char>, i: int)
    requires
        0 <= i < v.len(),
        v[i].id == key,
        forall|j: int| 0 <= j < i ==> #[trigger] v[j].id != key,
    ensures
        first_id(v, key) == Some(i),
{
    let k = choose|k: int|
        0 <= k < v.len() && #[trigger] v[k].id == key && forall|j: int|
            0 <= j < k ==> #[trigger] v[j].id != key;
    assert(0 <= k < v.len() && v[k].id == key && forall|j: int| 0 <= j < k ==> #[trigger] v[j].id != key);
    if k < i {
        assert(v[k].id != key);
    }
    if i < k {
        assert(v[i].id != key);
    }
}

fn find_fingerprint(v: &Vec<SpoolEntry>, fp: &Vec<char>) -> (b: bool)
    ensures
        b == has_fingerprint(queue_view(v@), fp@),
{
    let mut i: usize = 0;
    while i < v.len()
        invariant
            i <= v.len(),
            forall|j: int| 0 <= j < i ==> #[trigger] queue_view(v@)[j].fingerprint != fp@,
        decreases v.len() - i,
    {
        let f = crate::text::chars_of(v[i].fingerprint.as_str());
        if crate::text::chars_eq(f.as_slice(), fp.as_slice()) {
            assert(queue_view(v@)[i as int].fingerprint == fp@);
            return true;
        }
        i = i + 1;
    }
    false
}

/// Queues a file for upload. A blank path or fingerprint is refused; a fingerprint that is
/// already queued leaves the queue as it is. Returns the number of queued entries.
pub fn uce_spool_enqueue(
    entries: &mut Vec<SpoolEntry>,
    file_path: &str,
    fingerprint: &str,
    source: &str,
    now_ms: i64,
) -> (r: Result<u32, String>)
    ensures
        (trim(fingerprint@).len() == 0 || trim(file_path@).len() == 0) ==> {
            &&& final(entries)@ == old(entries)@
            &&& r matches Err(e) && e@ == "file_path and fingerprint required"@
        },
        (trim(fingerprint@).len() > 0 && trim(file_path@).len() > 0) ==> {
            &&& queue_view(final(entries)@) == enqueued(
                queue_view(old(entries)@),
                file_path@,
                fingerprint@,
                source@,
                now_ms,
            )
            &&& r matches Ok(n) && n as int == final(entries)@.len() % 0x1_0000_0000
        },
{
    let fp = crate::text::trim_chars(fingerprint);
    let path = crate::text::trim_chars(file_path);
    if fp.len() == 0 || path.len() == 0 {
        return Err(String::from_str("file_path and fingerprint required"));
    }
    if find_fingerprint(entries, &fp) {
        return Ok(pending_u32(entries.len()));
    }
    let src = crate::text::trim_chars(source);
    let source_text = if src.len() == 0 {
        let s = String::from_str("spool");
        proof {
            reveal_strlit("spool");
        }
        assert(s@ == spool_label());
        s
    } else {
        crate::text::string_of(src.as_slice())
    };
    let ghost before = queue_view(entries@);
    entries.push(
        SpoolEntry {
            id: crate::text::string_of(fp.as_slice()),
            file_path: crate::text::string_of(path.as_slice()),
            fingerprint: crate::text::string_of(fp.as_slice()),
            source: source_text,
            enqueued_unix_ms: now_ms,
            attempts: 0,
            last_error: String::new(),
        },
    );
    assert(queue_view(entries@) =~= before.push(
        new_entry(file_path@, fingerprint@, source@, now_ms),
    ));
    Ok(pending_u32(entries.len()))
}

/// The entries handed out for one upload batch: the first `limit` (clamped to 1..=25),
/// left in the queue until acked.
pub fn uce_spool_claim_batch(entries: &Vec<SpoolEntry>, limit: u32) -> (batch: Vec<SpoolEntry>)
    ensures
        queue_view(batch@) == queue_view(entries@).take(
            if entries@.len() < claim_limit(limit) {
                entries@.len() as int
            } else {
                claim_limit(limit)
            },
        ),
{
    let lim: usize = if limit < 1 {
        1
    } else if limit > 25 {
        25
    } else {
        limit as usize
    };
    let n = if entries.len() < lim {
        entries.len()
    } else {
        lim
    };
    let mut batch: Vec<SpoolEntry> = Vec::new();
    let mut i: usize = 0;
    while i < n
        invariant
            i <= n <= entries.len(),
            queue_view(batch@) == queue_view(entries@).take(i as int),
        decreases n - i,
    {
        let ghost prev = queue_view(batch@);
        batch.push(entries[i].duplicate());
        assert(queue_view(batch@) =~= prev.push(queue_view(entries@)[i as int]));
        assert(queue_view(entries@).take(i + 1) =~= queue_view(entries@).take(i as int).push(
            queue_view(entries@)[i as int],
        ));
        i = i + 1;
    }
    batch
}

/// The batch size a claim asks for: `limit` clamped to 1..=25.
pub open spec fn claim_limit(limit: u32) -> int {
    if limit < 1 {
        1
    } else if limit > 25 {
        25
    } else {
        limit as int
    }
}

fn remove_id(entries: &mut Vec<SpoolEntry>, key: &Vec<char>)
    ensures
        queue_view(final(entries)@) == without_id(queue_view(old(entries)@), key@),
{
    let ghost full = queue_view(entries@);
    let mut kept: Vec<SpoolEntry> = Vec::new();
    let mut j: usize = 0;
    while j < entries.len()
        invariant
            j <= entries.len(),
            queue_view(entries@) == full,
            queue_view(kept@) == without_id(full.take(j as int), key@),
        decreases entries.len() - j,
    {
        let ghost prev = queue_view(kept@);
        assert(full.take(j + 1).drop_last() =~= full.take(j as int));
        assert(full.take(j + 1).last() == full[j as int]);
        proof {
            let f = |e: SpoolView| e.id != key@;
            assert(full.take(j + 1) =~= full.take(j as int).push(full[j as int]));
            full.take(j as int).lemma_filter_push(full[j as int], f);
        }
        let id = crate::text::chars_of(entries[j].id.as_str());
        if !crate::text::chars_eq(id.as_slice(), key.as_slice()) {
            kept.push(entries[j].duplicate());
            assert(queue_view(kept@) =~= prev.push(full[j as int]));
        }
        j = j + 1;
    }
    assert(full.take(full.len() as int) =~= full);
    *entries = kept;
}

/// Marks an upload done: every entry with the (trimmed) id leaves the queue. Returns the
/// number still queued.
pub fn uce_spool_ack(entries: &mut Vec<SpoolEntry>, id: &str) -> (n: u32)
    ensures
        queue_view(final(entries)@) == without_id(queue_view(old(entries)@), trim(id@)),
        n as int == final(entries)@.len() % 0x1_0000_0000,
{
    let key = crate::text::trim_chars(id);
    remove_id(entries, &key);
    pending_u32(entries.len())
}

/// Records a failed upload of the entry with the (trimmed) id; see `failed`. Returns the
/// number still queued.
pub fn uce_spool_fail(entries: &mut Vec<SpoolEntry>, id: &str, error: &str) -> (n: u32)
    ensures
        queue_view(final(entries)@) == failed(queue_view(old(entries)@), trim(id@), error@),
        n as int == final(entries)@.len() % 0x1_0000_0000,
{
    let key = crate::text::trim_chars(id);
    let ghost v = queue_view(entries@);
    let mut i: usize = 0;
    while i < entries.len()
        invariant
            i <= entries.len(),
            queue_view(entries@) == v,
            v == queue_view(old(entries)@),
            key@ == trim(id@),
            forall|j: int| 0 <= j < i ==> #[trigger] v[j].id != key@,
        decreases entries.len() - i,
    {
        let cur = crate::text::chars_of(entries[i].id.as_str());
        if crate::text::chars_eq(cur.as_slice(), key.as_slice()) {
            proof {
                lemma_first_id(v, key@, i as int);
            }
            let mut e = entries[i].duplicate();
            e.attempts = e.attempts.saturating_add(1);
            let err = crate::text::trim_chars(error);
            if err.len() == 0 {
                let s = String::from_str("unknown");
                proof {
                    reveal_strlit("unknown");
                }
                assert(s@ == unknown_label());
                e.last_error = s;
            } else {
                let t = crate::text::string_of(err.as_slice());
                e.last_error = crate::text::take_string(t.as_str(), MAX_ERROR_CHARS);
            }
            assert(e.last_error@ == fail_text(error@));

            if e.attempts >= MAX_ATTEMPTS {
                remove_id(entries, &key);
            } else {
                let ghost ev = e@;
                assert(ev == SpoolView { attempts: e.attempts, last_error: fail_text(error@), ..v[i as int] });
                entries.set(i, e);
                assert(queue_view(entries@) =~= v.update(i as int, ev));
            }
            return pending_u32(entries.len());
        }
        i = i + 1;
    }
    proof {
        if exists|k: int| 0 <= k < v.len() && #[trigger] v[k].id == key@ {
            let k = choose|k: int| 0 <= k < v.len() && #[trigger] v[k].id == key@;
            assert(v[k].id != key@);
        }
    }
    pending_u32(entries.len())
}

/// Enqueueing a fingerprint that is already queued changes nothing: the queue never
/// holds two entries for one (trimmed) fingerprint because of a repeated enqueue.
pub proof fn law_enqueue_idempotent(v: Seq<SpoolView>, file_path: Seq<char>, fingerprint: Seq<char>, source: Seq<char>, now: i64, path2: Seq<char>, source2: Seq<char>, later: i64)
    requires
        trim(fingerprint).len() > 0,
        trim(file_path).len() > 0,
    ensures
        ({
            let once = enqueued(v, file_path, fingerprint, source, now);
            enqueued(once, path2, fingerprint, source2, later) == once
        }),
{
    let once = enqueued(v, file_path, fingerprint, source, now);
    if !has_fingerprint(v, trim(fingerprint)) {
        assert(once[v.len() as int].fingerprint == trim(fingerprint));
    }
}

/// Acking the id of an entry just enqueued takes it out again: a fresh fingerprint
/// enqueued and then acked leaves the queue as it was, provided no other entry carried
/// that id.
pub proof fn law_enqueue_then_ack(v: Seq<SpoolView>, file_path: Seq<char>, fingerprint: Seq<char>, source: Seq<char>, now: i64)
    requires
        trim(fingerprint).len() > 0,
        trim(file_path).len() > 0,
        !has_fingerprint(v, trim(fingerprint)),
        forall|i: int| 0 <= i < v.len() ==> #[trigger] v[i].id != trim(fingerprint),
    ensures
        without_id(enqueued(v, file_path, fingerprint, source, now), trim(fingerprint)) == v,
{
    let key = trim(fingerprint);
    let f = |e: SpoolView| e.id != key;
    let e = new_entry(file_path, fingerprint, source, now);
    v.lemma_filter_push(e, f);
    lemma_filter_all(v, key);
}

proof fn lemma_filter_all(v: Seq<SpoolView>, key: Seq<char>)
    requires
        forall|i: int| 0 <= i < v.len() ==> #[trigger] v[i].id != key,
    ensures
        without_id(v, key) == v,
    decreases v.len(),
{
    if v.len() > 0 {
        let f = |e: SpoolView| e.id != key;
        lemma_filter_all(v.drop_last(), key);
        assert(v.drop_last().push(v.last()) =~= v);
        v.drop_last().lemma_filter_push(v.last(), f);
        assert(v.last() == v[v.len() - 1]);
    } else {
        assert(without_id(v, key) =~= v);
    }
}

} // verus!

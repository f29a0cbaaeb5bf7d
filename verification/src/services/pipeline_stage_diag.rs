//! Ring-buffer trace for diagnostics: detection → copy → emit → upload. Each ring keeps the
//! latest `RING_MAX` entries, oldest first.
use vstd::prelude::*;
use std::collections::VecDeque;

verus! {

pub const RING_MAX: usize = 24;

pub struct PipelineStageEntry {
    pub at_unix_ms: i64,
    pub path: String,
    pub detail: Option<String>,
}

/// An entry as plain values.
pub open spec fn entry_view(e: PipelineStageEntry) -> (i64, Seq<char>, Option<Seq<char>>) {
    (e.at_unix_ms, e.path@, crate::services::js_runtime_diag::ov(e.detail))
}

pub open spec fn ring_view(q: Seq<PipelineStageEntry>) -> Seq<(i64, Seq<char>, Option<Seq<char>>)> {
    q.map_values(|e: PipelineStageEntry| entry_view(e))
}

/// `s` with `e` appended, keeping only the last `max` items.
pub open spec fn ring_after<T>(s: Seq<T>, e: T, max: nat) -> Seq<T> {
    let t = s.push(e);
    if t.len() > max {
        t.skip(t.len() - max)
    } else {
        t
    }
}

/// Appends an entry and drops the oldest while the ring is over `RING_MAX`.
fn push_ring(ring: &mut VecDeque<PipelineStageEntry>, e: PipelineStageEntry)
    ensures
        ring_view(final(ring)@) == ring_after(ring_view(old(ring)@), entry_view(e), RING_MAX as nat),
        final(ring)@.len() <= RING_MAX,
{
    let ghost full = old(ring)@.push(e);
    ring.push_back(e);
    assert(ring@ == full);
    assert(full.skip(0) =~= full);
    while ring.len() > RING_MAX
        invariant
            0 <= full.len() - ring@.len(),
            ring@ == full.skip(full.len() - ring@.len()),
            ring@.len() == full.len() || ring@.len() >= RING_MAX,
        decreases ring@.len(),
    {
        let ghost before = ring@;
        let _ = ring.pop_front();
        assert(ring@ =~= full.skip(full.len() - ring@.len()));
    }
    proof {
        let n = full.len() - ring@.len();
        assert(ring_view(full) =~= ring_view(old(ring)@).push(entry_view(e)));
        assert(ring_view(ring@) =~= ring_view(full).skip(n));
        if full.len() > RING_MAX {
            assert(ring@.len() == RING_MAX);
        } else {
            assert(n == 0);
            assert(ring_view(full).skip(0) =~= ring_view(full));
        }
    }
}

pub struct PipelineStageRings {
    pub detected: VecDeque<PipelineStageEntry>,
    pub rejected: VecDeque<PipelineStageEntry>,
    pub accepted: VecDeque<PipelineStageEntry>,
    pub copy_attempts: VecDeque<PipelineStageEntry>,
    pub copy_failures: VecDeque<PipelineStageEntry>,
    pub copy_successes: VecDeque<PipelineStageEntry>,
    pub emitted_incoming: VecDeque<PipelineStageEntry>,
    pub upload_attempts: VecDeque<PipelineStageEntry>,
    pub upload_failures: VecDeque<PipelineStageEntry>,
    pub upload_successes: VecDeque<PipelineStageEntry>,
}

/// The ten rings as plain values.
pub struct PipelineStageRingsV {
    pub detected: Seq<(i64, Seq<char>, Option<Seq<char>>)>,
    pub rejected: Seq<(i64, Seq<char>, Option<Seq<char>>)>,
    pub accepted: Seq<(i64, Seq<char>, Option<Seq<char>>)>,
    pub copy_attempts: Seq<(i64, Seq<char>, Option<Seq<char>>)>,
    pub copy_failures: Seq<(i64, Seq<char>, Option<Seq<char>>)>,
    pub copy_successes: Seq<(i64, Seq<char>, Option<Seq<char>>)>,
    pub emitted_incoming: Seq<(i64, Seq<char>, Option<Seq<char>>)>,
    pub upload_attempts: Seq<(i64, Seq<char>, Option<Seq<char>>)>,
    pub upload_failures: Seq<(i64, Seq<char>, Option<Seq<char>>)>,
    pub upload_successes: Seq<(i64, Seq<char>, Option<Seq<char>>)>,
}

impl View for PipelineStageRings {
    type V = PipelineStageRingsV;

    open spec fn view(&self) -> PipelineStageRingsV {
        PipelineStageRingsV {
            detected: ring_view(self.detected@),
            rejected: ring_view(self.rejected@),
            accepted: ring_view(self.accepted@),
            copy_attempts: ring_view(self.copy_attempts@),
            copy_failures: ring_view(self.copy_failures@),
            copy_successes: ring_view(self.copy_successes@),
            emitted_incoming: ring_view(self.emitted_incoming@),
            upload_attempts: ring_view(self.upload_attempts@),
            upload_failures: ring_view(self.upload_failures@),
            upload_successes: ring_view(self.upload_successes@),
        }
    }
}

fn entry(path: &str, detail: Option<String>, now_ms: i64) -> (e: PipelineStageEntry)
    ensures
        entry_view(e) == (now_ms, path@, crate::services::js_runtime_diag::ov(detail)),
{
    PipelineStageEntry { at_unix_ms: now_ms, path: String::from_str(path), detail }
}

fn some_str(s: &str) -> (r: Option<String>)
    ensures
        crate::services::js_runtime_diag::ov(r) == Some(s@),
{
    Some(String::from_str(s))
}

impl PipelineStageRings {
    pub fn new() -> (r: Self)
        ensures
            r@ == (PipelineStageRingsV {
                detected: Seq::empty(),
                rejected: Seq::empty(),
                accepted: Seq::empty(),
                copy_attempts: Seq::empty(),
                copy_failures: Seq::empty(),
                copy_successes: Seq::empty(),
                emitted_incoming: Seq::empty(),
                upload_attempts: Seq::empty(),
                upload_failures: Seq::empty(),
                upload_successes: Seq::empty(),
            }),
    {
        proof {
            assert(ring_view(Seq::<PipelineStageEntry>::empty()) =~= Seq::empty());
        }
        PipelineStageRings {
            detected: VecDeque::new(),
            rejected: VecDeque::new(),
            accepted: VecDeque::new(),
            copy_attempts: VecDeque::new(),
            copy_failures: VecDeque::new(),
            copy_successes: VecDeque::new(),
            emitted_incoming: VecDeque::new(),
            upload_attempts: VecDeque::new(),
            upload_failures: VecDeque::new(),
            upload_successes: VecDeque::new(),
        }
    }

    pub fn record_detected(&mut self, path: &str, now_ms: i64)
        ensures
            final(self)@ == (PipelineStageRingsV {
                detected: ring_after(old(self)@.detected, (now_ms, path@, None), RING_MAX as nat),
                ..old(self)@
            }),
    {
        push_ring(&mut self.detected, entry(path, None, now_ms));
    }

    pub fn record_rejected(&mut self, path: &str, reason: &str, now_ms: i64)
        ensures
            final(self)@ == (PipelineStageRingsV {
                rejected: ring_after(old(self)@.rejected, (now_ms, path@, Some(reason@)), RING_MAX as nat),
                ..old(self)@
            }),
    {
        push_ring(&mut self.rejected, entry(path, some_str(reason), now_ms));
    }

    pub fn record_accepted(&mut self, path: &str, detail: Option<String>, now_ms: i64)
        ensures
            final(self)@ == (PipelineStageRingsV {
                accepted: ring_after(old(self)@.accepted, (now_ms, path@, crate::services::js_runtime_diag::ov(detail)), RING_MAX as nat),
                ..old(self)@
            }),
    {
        push_ring(&mut self.accepted, entry(path, detail, now_ms));
    }

    pub fn record_copy_attempt(&mut self, path: &str, now_ms: i64)
        ensures
            final(self)@ == (PipelineStageRingsV {
                copy_attempts: ring_after(old(self)@.copy_attempts, (now_ms, path@, None), RING_MAX as nat),
                ..old(self)@
            }),
    {
        push_ring(&mut self.copy_attempts, entry(path, None, now_ms));
    }

    pub fn record_copy_success(&mut self, staged_path: &str, now_ms: i64)
        ensures
            final(self)@ == (PipelineStageRingsV {
                copy_successes: ring_after(old(self)@.copy_successes, (now_ms, staged_path@, None), RING_MAX as nat),
                ..old(self)@
            }),
    {
        push_ring(&mut self.copy_successes, entry(staged_path, None, now_ms));
    }

    pub fn record_copy_failure(&mut self, path: &str, err: &str, now_ms: i64)
        ensures
            final(self)@ == (PipelineStageRingsV {
                copy_failures: ring_after(old(self)@.copy_failures, (now_ms, path@, Some(err@)), RING_MAX as nat),
                ..old(self)@
            }),
    {
        push_ring(&mut self.copy_failures, entry(path, some_str(err), now_ms));
    }

    pub fn record_emit_incoming(&mut self, path: &str, now_ms: i64)
        ensures
            final(self)@ == (PipelineStageRingsV {
                emitted_incoming: ring_after(old(self)@.emitted_incoming, (now_ms, path@, None), RING_MAX as nat),
                ..old(self)@
            }),
    {
        push_ring(&mut self.emitted_incoming, entry(path, None, now_ms));
    }

    pub fn record_upload_attempt(&mut self, path: &str, now_ms: i64)
        ensures
            final(self)@ == (PipelineStageRingsV {
                upload_attempts: ring_after(old(self)@.upload_attempts, (now_ms, path@, None), RING_MAX as nat),
                ..old(self)@
            }),
    {
        push_ring(&mut self.upload_attempts, entry(path, None, now_ms));
    }

    pub fn record_upload_success(&mut self, path: &str, now_ms: i64)
        ensures
            final(self)@ == (PipelineStageRingsV {
                upload_successes: ring_after(old(self)@.upload_successes, (now_ms, path@, None), RING_MAX as nat),
                ..old(self)@
            }),
    {
        push_ring(&mut self.upload_successes, entry(path, None, now_ms));
    }

    pub fn record_upload_failure(&mut self, path: &str, detail: &str, now_ms: i64)
        ensures
            final(self)@ == (PipelineStageRingsV {
                upload_failures: ring_after(old(self)@.upload_failures, (now_ms, path@, Some(detail@)), RING_MAX as nat),
                ..old(self)@
            }),
    {
        push_ring(&mut self.upload_failures, entry(path, some_str(detail), now_ms));
    }
}

/// A ring never holds more than `max` items, its newest item is the one just added, and
/// the items before it are the newest of the previous ring, in order.
pub proof fn law_ring_after<T>(s: Seq<T>, e: T, max: nat)
    requires
        max > 0,
    ensures
        ring_after(s, e, max).len() <= max,
        ring_after(s, e, max).len() > 0,
        ring_after(s, e, max).last() == e,
        ring_after(s, e, max).drop_last().is_suffix_of(s),
{
    let t = s.push(e);
    let r = ring_after(s, e, max);
    if t.len() > max {
        let k = t.len() - max;
        assert(r =~= t.skip(k));
        assert(r.drop_last() =~= s.skip(k));
        assert(s.skip(k) =~= s.subrange(s.len() - r.drop_last().len(), s.len() as int));
    } else {
        assert(r.drop_last() =~= s);
        assert(s =~= s.subrange(s.len() - r.drop_last().len(), s.len() as int));
    }
}

} // verus!

//! The session flusher: it buffers pending session updates, folds them into
//! hourly outcome buckets under aggregated delivery, and drains everything
//! into outbound envelopes on a timer, a size threshold, or shutdown. The
//! background thread, the lock around this state and the transport live
//! with the embedding application; everything that decides what a flush
//! sends is here.

use crate::external::{hour_floor, trunc_to_hour};
use crate::protocol::{
    clone_opt_string, inc_u32, AggregateItem, Envelope, EnvelopeItem, SessionAggregates,
    SessionStatus, SessionUpdate,
};
use vstd::prelude::*;

verus! {

/// The wire protocol's size ceiling: no outbound unit carries more session
/// items than this, and an itemized queue that reaches it is flushed at
/// once.
pub const MAX_SESSION_ITEMS: usize = 100;

/// The background loop's flush cadence, in milliseconds.
pub const FLUSH_INTERVAL_MS: u64 = 60_000;

/// The delivery mode, an external configuration toggle.
#[derive(Clone, Copy, Debug, PartialEq, Eq, Structural)]
pub enum SessionMode {
    /// Itemized-only delivery: every update is sent individually.
    Application,
    /// Aggregated delivery: a session's first delta is still sent
    /// individually, every later delta is folded into hourly counters.
    Request,
}

/// An update joins the itemized queue under itemized mode and for a
/// session's first delta even under aggregated mode — the backend needs the
/// full attribute set at least once.
pub open spec fn is_itemized(mode: SessionMode, u: SessionUpdate) -> bool {
    mode is Application || u.init
}

/// Whether a bucket holds the hour and distinct id of an update.
pub open spec fn bucket_matches(g: AggregateItem, u: SessionUpdate) -> bool {
    g.started == hour_floor(u.started as int) && g.distinct_id.deep_view()
        == u.distinct_id.deep_view()
}

/// The index of the first bucket matching `u`, or -1 when none does.
pub open spec fn find_bucket(bs: Seq<AggregateItem>, u: SessionUpdate) -> int
    decreases bs.len(),
{
    if bs.len() == 0 {
        -1
    } else if bucket_matches(bs[0], u) {
        0
    } else {
        let r = find_bucket(bs.skip(1), u);
        if r == -1 {
            -1
        } else {
            r + 1
        }
    }
}

/// A zero bucket for the update's hour and distinct id.
pub open spec fn fresh_bucket(u: SessionUpdate) -> AggregateItem {
    AggregateItem {
        started: hour_floor(u.started as int) as i64,
        distinct_id: u.distinct_id,
        exited: 0,
        errored: 0,
        abnormal: 0,
        crashed: 0,
    }
}

/// The bucket with the update's outcome counted: `Exited` with no errors
/// counts as a clean exit, `Exited` with errors counts as errored — a
/// session that recovered from errors is tallied apart from a clean exit —
/// and `Crashed` and `Abnormal` count their own tallies. An `Okay` update
/// counts nothing.
pub open spec fn bump_bucket(g: AggregateItem, u: SessionUpdate) -> AggregateItem {
    match u.status {
        SessionStatus::Exited => if u.errors > 0 {
            AggregateItem { errored: inc_u32(g.errored), ..g }
        } else {
            AggregateItem { exited: inc_u32(g.exited), ..g }
        },
        SessionStatus::Crashed => AggregateItem { crashed: inc_u32(g.crashed), ..g },
        SessionStatus::Abnormal => AggregateItem { abnormal: inc_u32(g.abnormal), ..g },
        SessionStatus::Okay => g,
    }
}

/// The bucket list after folding one update under aggregated delivery: an
/// `Okay` delta is dropped — the aggregate wire shape cannot represent a
/// non-terminal, non-init update, an intentional information loss — while a
/// terminal delta bumps the bucket of its (hour, distinct id) key, creating
/// the bucket when the key is new.
pub open spec fn agg_insert(bs: Seq<AggregateItem>, u: SessionUpdate) -> Seq<AggregateItem> {
    if u.status is Okay {
        bs
    } else {
        let i = find_bucket(bs, u);
        if i >= 0 {
            bs.update(i, bump_bucket(bs[i], u))
        } else {
            bs.push(bump_bucket(fresh_bucket(u), u))
        }
    }
}

/// The pending queue cut into delivery chunks: full chunks of
/// `MAX_SESSION_ITEMS`, then the remainder, in order.
pub open spec fn chunk_seq(q: Seq<SessionUpdate>) -> Seq<Seq<SessionUpdate>>
    decreases q.len(),
{
    if q.len() == 0 {
        Seq::empty()
    } else if q.len() <= MAX_SESSION_ITEMS {
        seq![q]
    } else {
        seq![q.take(MAX_SESSION_ITEMS as int)] + chunk_seq(q.skip(MAX_SESSION_ITEMS as int))
    }
}

/// Law: chunking loses nothing and reorders nothing — the chunks of a queue
/// concatenate back to exactly that queue, so one flush delivers every
/// buffered update, in the order it was enqueued.
pub proof fn lemma_chunks_cover_queue(q: Seq<SessionUpdate>)
    ensures
        chunk_seq(q).flatten() == q,
    decreases q.len(),
{
    if q.len() == 0 {
        assert(chunk_seq(q).flatten() =~= q);
    } else if q.len() <= MAX_SESSION_ITEMS {
        chunk_seq(q).lemma_flatten_one_element();
    } else {
        let head = seq![q.take(MAX_SESSION_ITEMS as int)];
        let tail = chunk_seq(q.skip(MAX_SESSION_ITEMS as int));
        lemma_chunks_cover_queue(q.skip(MAX_SESSION_ITEMS as int));
        vstd::seq_lib::lemma_flatten_concat(head, tail);
        head.lemma_flatten_one_element();
        assert(q.take(MAX_SESSION_ITEMS as int) + q.skip(MAX_SESSION_ITEMS as int) =~= q);
    }
}

/// A chunk of updates as envelope items.
pub open spec fn wrap_updates(c: Seq<SessionUpdate>) -> Seq<EnvelopeItem> {
    c.map_values(|u: SessionUpdate| EnvelopeItem::SessionUpdate(u))
}

/// What one flush sends for a given pending state: the open aggregate
/// bucket set, if any, as one envelope ahead of everything else, then each
/// chunk of the itemized queue as one envelope, in FIFO order.
pub open spec fn flush_output(
    q: Seq<SessionUpdate>,
    agg: Option<SessionAggregates>,
    out: Seq<Envelope>,
) -> bool {
    let base: int = if agg is Some {
        1
    } else {
        0
    };
    &&& out.len() == base + chunk_seq(q).len()
    &&& (agg matches Some(a) ==> out[0]@ == seq![EnvelopeItem::SessionAggregates(a)])
    &&& forall|i: int|
        0 <= i < chunk_seq(q).len() ==> out[base + i]@ == wrap_updates(#[trigger] chunk_seq(q)[i])
}

/// Whether two optional strings hold the same characters.
fn opt_str_eq(a: &Option<String>, b: &Option<String>) -> (r: bool)
    ensures
        r == (a.deep_view() == b.deep_view()),
{
    match (a, b) {
        (Some(x), Some(y)) => *x == *y,
        (None, None) => true,
        _ => false,
    }
}

fn bump_item(g: AggregateItem, u: &SessionUpdate) -> (r: AggregateItem)
    ensures
        r == bump_bucket(g, *u),
{
    match u.status {
        SessionStatus::Exited => if u.errors > 0 {
            AggregateItem {
                errored: if g.errored == u32::MAX {
                    g.errored
                } else {
                    g.errored + 1
                },
                ..g
            }
        } else {
            AggregateItem {
                exited: if g.exited == u32::MAX {
                    g.exited
                } else {
                    g.exited + 1
                },
                ..g
            }
        },
        SessionStatus::Crashed => AggregateItem {
            crashed: if g.crashed == u32::MAX {
                g.crashed
            } else {
                g.crashed + 1
            },
            ..g
        },
        SessionStatus::Abnormal => AggregateItem {
            abnormal: if g.abnormal == u32::MAX {
                g.abnormal
            } else {
                g.abnormal + 1
            },
            ..g
        },
        SessionStatus::Okay => g,
    }
}

fn find_bucket_index(items: &Vec<AggregateItem>, u: &SessionUpdate, started: i64) -> (r: Option<
    usize,
>)
    requires
        started == hour_floor(u.started as int),
    ensures
        r matches Some(i) ==> 0 <= i < items@.len() && find_bucket(items@, *u) == i,
        r is None ==> find_bucket(items@, *u) == -1,
{
    let n = items.len();
    let mut i: usize = 0;
    while i < n
        invariant
            i <= n,
            n == items@.len(),
            started == hour_floor(u.started as int),
            forall|j: int| 0 <= j < i ==> !bucket_matches(items@[j], *u),
        decreases n - i,
    {
        if items[i].started == started && opt_str_eq(&items[i].distinct_id, &u.distinct_id) {
            proof {
                lemma_find_bucket_first(items@, *u, i as int);
            }
            return Some(i);
        }
        i += 1;
    }
    proof {
        lemma_find_bucket_none(items@, *u);
    }
    None
}

/// When a matching bucket exists and none comes before it, the search finds
/// exactly it.
proof fn lemma_find_bucket_first(bs: Seq<AggregateItem>, u: SessionUpdate, i: int)
    requires
        0 <= i < bs.len(),
        bucket_matches(bs[i], u),
        forall|j: int| 0 <= j < i ==> !bucket_matches(bs[j], u),
    ensures
        find_bucket(bs, u) == i,
    decreases bs.len(),
{
    if i > 0 {
        lemma_find_bucket_first(bs.skip(1), u, i - 1);
    }
}

/// When no bucket matches, the search reports none.
proof fn lemma_find_bucket_none(bs: Seq<AggregateItem>, u: SessionUpdate)
    requires
        forall|j: int| 0 <= j < bs.len() ==> !bucket_matches(bs[j], u),
    ensures
        find_bucket(bs, u) == -1,
    decreases bs.len(),
{
    if bs.len() > 0 {
        lemma_find_bucket_none(bs.skip(1), u);
    }
}

/// The search's full characterization: -1 exactly when no bucket matches,
/// and otherwise the first matching index.
pub proof fn lemma_find_bucket_spec(bs: Seq<AggregateItem>, u: SessionUpdate)
    ensures
        find_bucket(bs, u) == -1 <==> (forall|j: int| 0 <= j < bs.len() ==> !bucket_matches(bs[j], u)),
        find_bucket(bs, u) != -1 ==> {
            &&& 0 <= find_bucket(bs, u) < bs.len()
            &&& bucket_matches(bs[find_bucket(bs, u)], u)
            &&& forall|j: int| 0 <= j < find_bucket(bs, u) ==> !bucket_matches(bs[j], u)
        },
    decreases bs.len(),
{
    if bs.len() > 0 {
        lemma_find_bucket_spec(bs.skip(1), u);
        assert(forall|j: int| 1 <= j < bs.len() ==> bs[j] == bs.skip(1)[j - 1]);
        if !bucket_matches(bs[0], u) {
            let r = find_bucket(bs.skip(1), u);
            if r != -1 {
                assert(find_bucket(bs, u) == r + 1);
                assert(bucket_matches(bs.skip(1)[r], u));
            }
        }
    }
}

/// Whether two updates share an aggregate bucket key: starts inside the
/// same calendar hour and the same distinct id.
pub open spec fn same_bucket_key(u1: SessionUpdate, u2: SessionUpdate) -> bool {
    hour_floor(u1.started as int) == hour_floor(u2.started as int) && u1.distinct_id.deep_view()
        == u2.distinct_id.deep_view()
}

/// Law: folding a terminal update grows the bucket list only when its
/// (hour, distinct id) key has no bucket yet; a key already present keeps
/// the list as it is, and an `Okay` update changes nothing.
pub proof fn lemma_agg_insert_len(bs: Seq<AggregateItem>, u: SessionUpdate)
    ensures
        agg_insert(bs, u).len() == bs.len() + (if !(u.status is Okay) && find_bucket(bs, u) == -1 {
            1int
        } else {
            0int
        }),
{
    lemma_find_bucket_spec(bs, u);
}

/// Law: after a terminal update is folded, a bucket for its key exists, and
/// every bucket's key is as it was (bumping a counter moves no bucket to
/// another key).
pub proof fn lemma_agg_insert_keyed(bs: Seq<AggregateItem>, u: SessionUpdate)
    requires
        u.wf(),
        !(u.status is Okay),
    ensures
        find_bucket(agg_insert(bs, u), u) != -1,
        forall|g: AggregateItem, v: SessionUpdate|
            bucket_matches(g, v) ==> #[trigger] bucket_matches(bump_bucket(g, u), v),
{
    lemma_find_bucket_spec(bs, u);
    let after = agg_insert(bs, u);
    let i = find_bucket(bs, u);
    assert(forall|g: AggregateItem, v: SessionUpdate|
        bucket_matches(g, v) ==> #[trigger] bucket_matches(bump_bucket(g, u), v));
    if i >= 0 {
        assert(bucket_matches(after[i], u));
    } else {
        assert(0 <= hour_floor(u.started as int) <= u.started as int);
        assert(bucket_matches(fresh_bucket(u), u));
        assert(bucket_matches(after[bs.len() as int], u));
    }
    lemma_find_bucket_spec(after, u);
}

/// Law: under aggregated delivery, two terminal updates whose starts fall
/// inside the same calendar hour and that carry the same distinct id fold
/// into one bucket — the second adds none — while a terminal update whose
/// key is new to the bucket list (a different hour, or a different distinct
/// id, than every bucket present) opens exactly one new bucket.
pub proof fn lemma_bucket_grouping(bs: Seq<AggregateItem>, u1: SessionUpdate, u2: SessionUpdate)
    requires
        u1.wf(),
        u2.wf(),
        !(u1.status is Okay),
        !(u2.status is Okay),
    ensures
        same_bucket_key(u1, u2) ==> agg_insert(agg_insert(bs, u1), u2).len() == agg_insert(
            bs,
            u1,
        ).len(),
        (!same_bucket_key(u1, u2) && find_bucket(bs, u2) == -1) ==> agg_insert(
            agg_insert(bs, u1),
            u2,
        ).len() == agg_insert(bs, u1).len() + 1,
{
    let after1 = agg_insert(bs, u1);
    lemma_agg_insert_len(bs, u1);
    lemma_agg_insert_len(after1, u2);
    lemma_find_bucket_spec(bs, u1);
    lemma_find_bucket_spec(bs, u2);
    lemma_find_bucket_spec(after1, u2);
    if same_bucket_key(u1, u2) {
        lemma_agg_insert_keyed(bs, u1);
        lemma_find_bucket_spec(after1, u1);
        let k = find_bucket(after1, u1);
        assert(bucket_matches(after1[k], u1));
        assert(bucket_matches(after1[k], u2));
        assert(find_bucket(after1, u2) != -1);
    } else if find_bucket(bs, u2) == -1 {
        let i = find_bucket(bs, u1);
        if i >= 0 {
            assert(forall|j: int|
                0 <= j < after1.len() && j != i ==> after1[j] == bs[j]
                    && !bucket_matches(after1[j], u2));
            assert(after1[i] == bump_bucket(bs[i], u1));
            assert(!bucket_matches(bs[i], u2));
            assert(!bucket_matches(after1[i], u2));
        } else {
            assert(forall|j: int|
                0 <= j < bs.len() ==> after1[j] == bs[j] && !bucket_matches(after1[j], u2));
            assert(after1[bs.len() as int] == bump_bucket(fresh_bucket(u1), u1));
            assert(0 <= hour_floor(u1.started as int) <= u1.started as int);
            assert(!bucket_matches(fresh_bucket(u1), u2));
            assert(!bucket_matches(after1[bs.len() as int], u2));
        }
        assert(find_bucket(after1, u2) == -1);
    }
}

/// The flusher's pending state: the itemized queue and the open aggregate
/// bucket set.
#[derive(Debug)]
pub struct SessionFlusher {
    pub queue: Vec<SessionUpdate>,
    pub aggregate: Option<SessionAggregates>,
}

impl SessionFlusher {
    /// Between calls the itemized queue stays under the size ceiling: the
    /// threshold flush inside `enqueue` keeps it there.
    pub open spec fn wf(&self) -> bool {
        self.queue@.len() < MAX_SESSION_ITEMS
    }

    /// The open buckets; empty when no aggregate is open.
    pub open spec fn buckets(&self) -> Seq<AggregateItem> {
        match self.aggregate {
            Some(a) => a.aggregates@,
            None => Seq::empty(),
        }
    }

    /// A flusher with nothing pending.
    pub fn new() -> (r: SessionFlusher)
        ensures
            r.wf(),
            r.queue@.len() == 0,
            r.aggregate is None,
    {
        SessionFlusher { queue: Vec::new(), aggregate: None }
    }

    /// Drains the whole pending state into outbound envelopes and leaves
    /// the flusher empty: the open aggregate set first, then the itemized
    /// queue in FIFO order, chunked at the size ceiling. The caller hands
    /// each envelope to the transport, or drops it when none is attached.
    pub fn flush(&mut self) -> (out: Vec<Envelope>)
        ensures
            final(self).queue@.len() == 0,
            final(self).aggregate is None,
            final(self).wf(),
            flush_output(old(self).queue@, old(self).aggregate, out@),
    {
        let ghost base: int = if old(self).aggregate is Some {
            1int
        } else {
            0int
        };
        let ghost q0 = old(self).queue@;
        let mut out: Vec<Envelope> = Vec::new();
        match self.aggregate.take() {
            Some(a) => {
                let mut env = Envelope::new();
                env.add_item(EnvelopeItem::SessionAggregates(a));
                out.push(env);
            },
            None => {},
        }
        let mut q: Vec<SessionUpdate> = Vec::new();
        core::mem::swap(&mut q, &mut self.queue);
        let ghost mut cdone: int = 0;
        while q.len() > 0
            invariant
                self.queue@.len() == 0,
                self.aggregate is None,
                0 <= cdone <= chunk_seq(q0).len(),
                out@.len() == base + cdone,
                chunk_seq(q@) == chunk_seq(q0).skip(cdone),
                old(self).aggregate matches Some(a) ==> base == 1 && out@[0]@ == seq![
                    EnvelopeItem::SessionAggregates(a),
                ],
                old(self).aggregate is None ==> base == 0,
                forall|j: int|
                    0 <= j < cdone ==> #[trigger] out@[base + j]@ == wrap_updates(
                        chunk_seq(q0)[j],
                    ),
            decreases q.len(),
        {
            let ghost qstart = q@;
            let m = if q.len() < MAX_SESSION_ITEMS {
                q.len()
            } else {
                MAX_SESSION_ITEMS
            };
            let mut env = Envelope::new();
            let mut j: usize = 0;
            while j < m
                invariant
                    j <= m,
                    m == (if qstart.len() < MAX_SESSION_ITEMS as int {
                        qstart.len() as int
                    } else {
                        MAX_SESSION_ITEMS as int
                    }),
                    q@ == qstart.skip(j as int),
                    env@ == wrap_updates(qstart.take(j as int)),
                decreases m - j,
            {
                let u = q.remove(0);
                env.add_item(EnvelopeItem::SessionUpdate(u));
                proof {
                    assert(q@ =~= qstart.skip(j as int + 1));
                    assert(env@ =~= wrap_updates(qstart.take(j as int + 1)));
                }
                j += 1;
            }
            out.push(env);
            proof {
                let first = if qstart.len() <= MAX_SESSION_ITEMS as int {
                    qstart
                } else {
                    qstart.take(MAX_SESSION_ITEMS as int)
                };
                assert(qstart.take(m as int) =~= first);
                assert(chunk_seq(qstart)[0] == first);
                assert(chunk_seq(q@) =~= chunk_seq(qstart).skip(1));
                assert(chunk_seq(q0)[cdone] == chunk_seq(qstart)[0]);
                assert(chunk_seq(q0).skip(cdone + 1) =~= chunk_seq(qstart).skip(1));
                cdone = cdone + 1;
            }
        }
        proof {
            assert(chunk_seq(q0).skip(cdone).len() == 0);
            assert(cdone == chunk_seq(q0).len());
        }
        out
    }

    /// Buffers one session update. An itemized update joins the queue, and
    /// reaching the size ceiling triggers one synchronous flush whose
    /// envelopes are returned (otherwise none are). Under aggregated
    /// delivery a non-init terminal delta is folded into the bucket of its
    /// (hour, distinct id) key, and a non-init `Okay` delta is dropped.
    pub fn enqueue(&mut self, session_update: SessionUpdate, mode: SessionMode) -> (out: Vec<
        Envelope,
    >)
        requires
            old(self).wf(),
            session_update.wf(),
        ensures
            final(self).wf(),
            ({
                let q1 = old(self).queue@.push(session_update);
                &&& (is_itemized(mode, session_update) && q1.len() < MAX_SESSION_ITEMS) ==> {
                    &&& final(self).queue@ == q1
                    &&& final(self).aggregate == old(self).aggregate
                    &&& out@.len() == 0
                }
                &&& (is_itemized(mode, session_update) && q1.len() >= MAX_SESSION_ITEMS) ==> {
                    &&& final(self).queue@.len() == 0
                    &&& final(self).aggregate is None
                    &&& flush_output(q1, old(self).aggregate, out@)
                }
                &&& !is_itemized(mode, session_update) ==> {
                    &&& final(self).queue@ == old(self).queue@
                    &&& out@.len() == 0
                    &&& session_update.status is Okay ==> final(self).aggregate == old(
                        self,
                    ).aggregate
                    &&& !(session_update.status is Okay) ==> {
                        &&& final(self).aggregate matches Some(a)
                        &&& a.aggregates@ == agg_insert(old(self).buckets(), session_update)
                        &&& a.attributes == match old(self).aggregate {
                            Some(a0) => a0.attributes,
                            None => session_update.attributes,
                        }
                    }
                }
            }),
    {
        if matches!(mode, SessionMode::Application) || session_update.init {
            self.queue.push(session_update);
            if self.queue.len() >= MAX_SESSION_ITEMS {
                return self.flush();
            }
            return Vec::new();
        }
        if matches!(session_update.status, SessionStatus::Okay) {
            // the aggregate wire shape cannot represent a non-terminal,
            // non-init update: dropped on purpose
            return Vec::new();
        }
        let started = trunc_to_hour(session_update.started);
        let mut agg = match self.aggregate.take() {
            Some(a) => a,
            None => SessionAggregates {
                aggregates: Vec::new(),
                attributes: session_update.attributes.duplicate(),
            },
        };
        let ghost bs0 = agg.aggregates@;
        match find_bucket_index(&agg.aggregates, &session_update, started) {
            Some(i) => {
                let g = agg.aggregates.remove(i);
                let g2 = bump_item(g, &session_update);
                agg.aggregates.insert(i, g2);
                proof {
                    assert(agg.aggregates@ =~= bs0.update(
                        find_bucket(bs0, session_update),
                        bump_bucket(bs0[find_bucket(bs0, session_update)], session_update),
                    ));
                }
            },
            None => {
                let fresh = AggregateItem {
                    started,
                    distinct_id: clone_opt_string(&session_update.distinct_id),
                    exited: 0,
                    errored: 0,
                    abnormal: 0,
                    crashed: 0,
                };
                proof {
                    assert(fresh == fresh_bucket(session_update));
                }
                let g2 = bump_item(fresh, &session_update);
                agg.aggregates.push(g2);
            },
        }
        self.aggregate = Some(agg);
        Vec::new()
    }
}

/// What the background loop does on one wake.
#[derive(Clone, Copy, Debug, PartialEq, Eq, Structural)]
pub enum WakeAction {
    /// The shutdown flag is set: leave the loop; the owner then performs
    /// one final flush.
    Stop,
    /// The flush interval has elapsed: flush and reset the timer.
    Flush,
    /// Woken early: keep waiting out the remainder of the interval.
    KeepWaiting,
}

/// The background loop's decision on each wake: shutdown ends the loop at
/// once, otherwise a flush is due only when the whole interval has elapsed
/// since the last one.
pub fn on_wake(shutdown: bool, elapsed_ms: u64) -> (a: WakeAction)
    ensures
        a == (if shutdown {
            WakeAction::Stop
        } else if elapsed_ms >= FLUSH_INTERVAL_MS {
            WakeAction::Flush
        } else {
            WakeAction::KeepWaiting
        }),
{
    if shutdown {
        WakeAction::Stop
    } else if elapsed_ms >= FLUSH_INTERVAL_MS {
        WakeAction::Flush
    } else {
        WakeAction::KeepWaiting
    }
}

/// How long the background loop waits before its next wake: the remainder
/// of the flush interval, so that a timed wait can be cut short only by the
/// shutdown signal.
pub fn remaining_wait_ms(elapsed_ms: u64) -> (r: u64)
    ensures
        r == (if elapsed_ms >= FLUSH_INTERVAL_MS {
            0u64
        } else {
            (FLUSH_INTERVAL_MS - elapsed_ms) as u64
        }),
{
    if elapsed_ms >= FLUSH_INTERVAL_MS {
        0
    } else {
        FLUSH_INTERVAL_MS - elapsed_ms
    }
}

} // verus!

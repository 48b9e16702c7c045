//! Decisions of the sync coordinator, which coalesces requests to refresh
//! wallet state.
//!
//! Callers register as waiters for a sync type. The first caller that finds
//! no round running drives the rounds; every other caller waits. Each round
//! takes all queued waiters of the first queued waiter's type, forced if any
//! of them asked for force, and leaves waiters of other types queued in
//! arrival order for later rounds. Waiters that registered after a round was
//! formed are never part of it. The driver stops, and the coordinator goes
//! idle, when a round finds the queue empty.
use vstd::prelude::*;

verus! {

/// A kind of refresh; rounds of distinct kinds are never merged.
#[derive(Clone, Copy, Debug, PartialEq, Eq, Structural)]
pub struct SyncType(pub u32);

/// A registered request for a sync round.
#[derive(Clone, Copy, Debug)]
pub struct Waiter {
    pub sync_type: SyncType,
    pub force: bool,
    /// Where the round's outcome is delivered; `None` for a caller that does
    /// not wait for it.
    pub reply: Option<u64>,
}

/// One sync round: its type, whether it is forced, and where its single
/// outcome is delivered.
#[derive(Clone, Debug)]
pub struct SyncBatch {
    pub sync_type: SyncType,
    pub force: bool,
    pub replies: Vec<u64>,
}

/// Shared state of the coordinator: whether some caller is driving rounds,
/// and the waiters queued for the rounds to come, in arrival order.
#[derive(Debug)]
pub struct CoordinatorState {
    pub sync_running: bool,
    pub waiters: Vec<Waiter>,
}

/// Reply slots of the waiters of type `t`, in arrival order.
pub open spec fn batch_replies(ws: Seq<Waiter>, t: SyncType) -> Seq<u64>
    decreases ws.len(),
{
    if ws.len() == 0 {
        Seq::empty()
    } else {
        let rest = batch_replies(ws.drop_last(), t);
        let w = ws.last();
        if w.sync_type == t && w.reply is Some {
            rest.push(w.reply->0)
        } else {
            rest
        }
    }
}

/// Waiters of types other than `t`, in arrival order.
pub open spec fn deferred(ws: Seq<Waiter>, t: SyncType) -> Seq<Waiter>
    decreases ws.len(),
{
    if ws.len() == 0 {
        Seq::empty()
    } else {
        let rest = deferred(ws.drop_last(), t);
        if ws.last().sync_type != t {
            rest.push(ws.last())
        } else {
            rest
        }
    }
}

/// Whether some waiter of type `t` asked for a forced sync.
pub open spec fn batch_force(ws: Seq<Waiter>, t: SyncType) -> bool {
    exists|i: int| 0 <= i < ws.len() && ws[i].sync_type == t && #[trigger] ws[i].force
}

/// Whether a waiter of type `t` waits on reply slot `k`.
pub open spec fn waits_for(ws: Seq<Waiter>, t: SyncType, k: u64) -> bool {
    exists|i: int| 0 <= i < ws.len() && #[trigger] ws[i].sync_type == t && ws[i].reply == Some(k)
}

/// Reply slots of all waiters, in arrival order.
pub open spec fn all_replies(ws: Seq<Waiter>) -> Seq<u64>
    decreases ws.len(),
{
    if ws.len() == 0 {
        Seq::empty()
    } else {
        let rest = all_replies(ws.drop_last());
        if ws.last().reply is Some {
            rest.push(ws.last().reply->0)
        } else {
            rest
        }
    }
}

impl CoordinatorState {
    /// Nobody waits while no round is being driven.
    pub open spec fn wf(&self) -> bool {
        !self.sync_running ==> self.waiters@.len() == 0
    }

    /// An idle coordinator with no waiters.
    pub fn new() -> (r: CoordinatorState)
        ensures
            r.wf(),
            !r.sync_running,
            r.waiters@.len() == 0,
    {
        CoordinatorState { sync_running: false, waiters: Vec::new() }
    }

    /// Queues a waiter. Returns whether the caller must drive the rounds,
    /// which holds exactly when no round was being driven.
    pub fn add_waiter(&mut self, waiter: Waiter) -> (should_run: bool)
        requires
            old(self).wf(),
        ensures
            final(self).wf(),
            final(self).waiters@ == old(self).waiters@.push(waiter),
            final(self).sync_running,
            should_run == !old(self).sync_running,
    {
        self.waiters.push(waiter);
        if self.sync_running {
            false
        } else {
            self.sync_running = true;
            true
        }
    }

    /// Forms the next round from the queue. With an empty queue there is none
    /// and the coordinator goes idle. Otherwise the round has the first
    /// waiter's type, takes every queued waiter of that type, is forced if
    /// any of them asked for force, and leaves the others queued in order.
    pub fn next_batch(&mut self) -> (r: Option<SyncBatch>)
        requires
            old(self).wf(),
        ensures
            final(self).wf(),
            old(self).waiters@.len() == 0 ==> r is None && !final(self).sync_running
                && final(self).waiters@.len() == 0,
            old(self).waiters@.len() > 0 ==> match r {
                Some(b) => {
                    let t = old(self).waiters@[0].sync_type;
                    &&& b.sync_type == t
                    &&& b.force == batch_force(old(self).waiters@, t)
                    &&& b.replies@ == batch_replies(old(self).waiters@, t)
                    &&& final(self).waiters@ == deferred(old(self).waiters@, t)
                    &&& final(self).sync_running == old(self).sync_running
                },
                None => false,
            },
    {
        if self.waiters.len() == 0 {
            self.sync_running = false;
            return None;
        }
        let ghost ws = self.waiters@;
        let t = self.waiters[0].sync_type;
        let mut force = false;
        let mut replies: Vec<u64> = Vec::new();
        let mut rest: Vec<Waiter> = Vec::new();
        let n = self.waiters.len();
        let mut i: usize = 0;
        while i < n
            invariant
                n == ws.len(),
                self.waiters@ == ws,
                i <= n,
                replies@ == batch_replies(ws.subrange(0, i as int), t),
                rest@ == deferred(ws.subrange(0, i as int), t),
                force == batch_force(ws.subrange(0, i as int), t),
            decreases n - i,
        {
            let w = self.waiters[i];
            proof {
                assert(ws.subrange(0, i + 1).drop_last() =~= ws.subrange(0, i as int));
                assert(ws.subrange(0, i + 1).last() == w);
            }
            if w.sync_type == t {
                if w.force {
                    force = true;
                }
                if let Some(k) = w.reply {
                    replies.push(k);
                }
            } else {
                rest.push(w);
            }
            proof {
                let s = ws.subrange(0, i as int);
                let s1 = ws.subrange(0, i + 1);
                if force {
                    if batch_force(s, t) {
                        let j = choose|j: int| 0 <= j < s.len() && s[j].sync_type == t && #[trigger] s[j].force;
                        assert(s1[j] == s[j]);
                    } else {
                        assert(s1[i as int].force);
                    }
                } else {
                    assert forall|j: int| 0 <= j < s1.len() && s1[j].sync_type == t implies !#[trigger] s1[j].force by {
                        if j < i {
                            assert(s1[j] == s[j]);
                        }
                    }
                }
            }
            i = i + 1;
        }
        proof {
            assert(ws.subrange(0, n as int) =~= ws);
        }
        self.waiters = rest;
        Some(SyncBatch { sync_type: t, force, replies })
    }
}

/// When every waiter has type `t`, the round of type `t` takes every reply
/// slot and defers nobody.
proof fn lemma_batch_replies_all_of_type(ws: Seq<Waiter>, t: SyncType)
    requires
        forall|i: int| 0 <= i < ws.len() ==> #[trigger] ws[i].sync_type == t,
    ensures
        batch_replies(ws, t) == all_replies(ws),
        deferred(ws, t) == Seq::<Waiter>::empty(),
    decreases ws.len(),
{
    if ws.len() > 0 {
        let p = ws.drop_last();
        assert forall|i: int| 0 <= i < p.len() implies #[trigger] p[i].sync_type == t by {
            assert(p[i] == ws[i]);
        }
        lemma_batch_replies_all_of_type(p, t);
        assert(ws[ws.len() - 1].sync_type == t);
    }
}

/// Coalescing: however many callers queue requests of one type while no
/// round is running, a single round serves every one of them, and no round
/// remains to run after it.
pub proof fn coalescing(ws: Seq<Waiter>, t: SyncType)
    requires
        forall|i: int| 0 <= i < ws.len() ==> #[trigger] ws[i].sync_type == t,
    ensures
        batch_replies(ws, t) == all_replies(ws),
        deferred(ws, t).len() == 0,
{
    lemma_batch_replies_all_of_type(ws, t);
}

/// Every waiter left for later rounds has another type than the round just
/// formed.
proof fn lemma_deferred_other_types(ws: Seq<Waiter>, t: SyncType)
    ensures
        forall|i: int| 0 <= i < deferred(ws, t).len() ==> #[trigger] deferred(ws, t)[i].sync_type != t,
    decreases ws.len(),
{
    if ws.len() > 0 {
        lemma_deferred_other_types(ws.drop_last(), t);
    }
}

/// Every reply slot in a round belongs to a waiter of the round's type.
proof fn lemma_batch_replies_of_type(ws: Seq<Waiter>, t: SyncType)
    ensures
        forall|k: int|
            0 <= k < batch_replies(ws, t).len() ==> waits_for(ws, t, #[trigger] batch_replies(ws, t)[k]),
    decreases ws.len(),
{
    if ws.len() > 0 {
        let p = ws.drop_last();
        lemma_batch_replies_of_type(p, t);
        let b = batch_replies(ws, t);
        assert forall|k: int| 0 <= k < b.len() implies waits_for(ws, t, #[trigger] b[k]) by {
            if k < batch_replies(p, t).len() {
                assert(waits_for(p, t, batch_replies(p, t)[k]));
                let i = choose|i: int| 0 <= i < p.len() && #[trigger] p[i].sync_type == t && p[i].reply == Some(b[k]);
                assert(ws[i] == p[i]);
            } else {
                assert(ws[ws.len() - 1].reply == Some(b[k]));
            }
        }
    }
}

/// The first deferred waiter is the first queued waiter of another type: every
/// waiter queued before it has the round's type.
proof fn lemma_deferred_first_seen(ws: Seq<Waiter>, t: SyncType)
    ensures
        deferred(ws, t).len() > 0 ==> exists|i: int|
            0 <= i < ws.len() && #[trigger] ws[i] == deferred(ws, t)[0] && forall|j: int|
                0 <= j < i ==> #[trigger] ws[j].sync_type == t,
    decreases ws.len(),
{
    if ws.len() > 0 {
        let p = ws.drop_last();
        lemma_deferred_first_seen(p, t);
        if deferred(p, t).len() > 0 {
            let i = choose|i: int|
                0 <= i < p.len() && #[trigger] p[i] == deferred(p, t)[0] && forall|j: int|
                    0 <= j < i ==> #[trigger] p[j].sync_type == t;
            assert(ws[i] == p[i]);
            assert forall|j: int| 0 <= j < i implies #[trigger] ws[j].sync_type == t by {
                assert(ws[j] == p[j]);
            }
        } else if deferred(ws, t).len() > 0 {
            let i = ws.len() - 1;
            lemma_all_of_type_when_none_deferred(p, t);
            assert forall|j: int| 0 <= j < i implies #[trigger] ws[j].sync_type == t by {
                assert(ws[j] == p[j]);
            }
        }
    }
}

proof fn lemma_all_of_type_when_none_deferred(ws: Seq<Waiter>, t: SyncType)
    requires
        deferred(ws, t).len() == 0,
    ensures
        forall|j: int| 0 <= j < ws.len() ==> #[trigger] ws[j].sync_type == t,
    decreases ws.len(),
{
    if ws.len() > 0 {
        let p = ws.drop_last();
        if ws.last().sync_type != t {
            assert(deferred(ws, t).len() == deferred(p, t).len() + 1);
        }
        lemma_all_of_type_when_none_deferred(p, t);
        assert forall|j: int| 0 <= j < ws.len() implies #[trigger] ws[j].sync_type == t by {
            if j < p.len() {
                assert(ws[j] == p[j]);
            }
        }
    }
}

/// Rounds never merge types: a round formed for type `t` serves only waiters
/// of type `t`; every waiter it leaves queued has another type; and the next
/// round's type is the first type, in arrival order, other than `t`.
pub proof fn types_never_merge(ws: Seq<Waiter>, t: SyncType)
    ensures
        forall|k: int|
            0 <= k < batch_replies(ws, t).len() ==> waits_for(ws, t, #[trigger] batch_replies(ws, t)[k]),
        forall|i: int| 0 <= i < deferred(ws, t).len() ==> #[trigger] deferred(ws, t)[i].sync_type != t,
        deferred(ws, t).len() > 0 ==> exists|i: int|
            0 <= i < ws.len() && #[trigger] ws[i] == deferred(ws, t)[0] && forall|j: int|
                0 <= j < i ==> #[trigger] ws[j].sync_type == t,
{
    lemma_batch_replies_of_type(ws, t);
    lemma_deferred_other_types(ws, t);
    lemma_deferred_first_seen(ws, t);
}

/// A round formed from a queue in which some waiter of its type asked for
/// force is forced.
pub proof fn force_propagates(ws: Seq<Waiter>, t: SyncType, i: int)
    requires
        0 <= i < ws.len(),
        ws[i].sync_type == t,
        ws[i].force,
    ensures
        batch_force(ws, t),
{
}

proof fn lemma_replies_contained(ws: Seq<Waiter>, t: SyncType, k: u64)
    requires
        !all_replies(ws).contains(k),
    ensures
        !batch_replies(ws, t).contains(k),
    decreases ws.len(),
{
    if ws.len() > 0 {
        let p = ws.drop_last();
        if all_replies(p).contains(k) {
            let j = choose|j: int| 0 <= j < all_replies(p).len() && all_replies(p)[j] == k;
            if ws.last().reply is Some {
                assert(all_replies(ws)[j] == k);
            }
        }
        lemma_replies_contained(p, t, k);
        if batch_replies(ws, t).contains(k) {
            let j = choose|j: int| 0 <= j < batch_replies(ws, t).len() && batch_replies(ws, t)[j] == k;
            if j < batch_replies(p, t).len() {
                assert(batch_replies(p, t)[j] == k);
            } else {
                assert(all_replies(ws).last() == k);
            }
        }
    }
}

/// Freshness: a caller that registers while a round is in flight, with a
/// reply slot of its own, is not served by that round; it is served by the
/// next round of its type, formed from the queue the in-flight round left
/// with the caller added.
pub proof fn post_call_freshness(ws: Seq<Waiter>, t: SyncType, late: Waiter)
    requires
        late.reply is Some,
        !all_replies(ws).contains(late.reply->0),
    ensures
        !batch_replies(ws, t).contains(late.reply->0),
        batch_replies(deferred(ws, t).push(late), late.sync_type) == batch_replies(
            deferred(ws, t),
            late.sync_type,
        ).push(late.reply->0),
{
    lemma_replies_contained(ws, t, late.reply->0);
    assert(deferred(ws, t).push(late).drop_last() =~= deferred(ws, t));
}

} // verus!

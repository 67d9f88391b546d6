use vstd::prelude::*;
use crate::store::{empty_store, stacked, store_len, store_put, store_take};

verus! {

/// Exclusive claim on one detector, named by its id. It cannot be copied,
/// so at most one holder can hand it back.
#[derive(Debug)]
pub struct Lease {
    id: u64,
}

impl Lease {
    pub closed spec fn view(&self) -> u64 {
        self.id
    }

    pub fn id(&self) -> (r: u64)
        ensures
            r == self@,
    {
        self.id
    }
}

/// How a detector was obtained.
#[derive(Debug)]
pub enum Acquired {
    /// An idle detector, ready for use.
    Reused(Lease),
    /// No detector was idle: the holder must build the one with this id.
    Built(Lease),
    /// No detector was idle and every id has been handed out.
    Exhausted,
}

/// What became of a returned detector.
#[derive(Clone, Copy, Debug, PartialEq, Eq, Structural)]
pub enum Released {
    /// Kept for later requests.
    Kept,
    /// The pool was full: the holder drops it.
    Discarded,
}

/// Bookkeeping for a bounded set of detectors. Ids below `next_id` have been
/// handed out for building; idle ones wait on a stack, lent ones are held by
/// exactly one lease each.
pub struct DetectorPool {
    idle: object_pool::Pool<u64>,
    max_size: usize,
    next_id: u64,
    lent: Ghost<Set<u64>>,
}

impl DetectorPool {
    /// Idle detector ids, the next one to be reused last.
    pub closed spec fn idle(&self) -> Seq<u64> {
        stacked(self.idle)
    }

    /// Ids currently held by a lease.
    pub closed spec fn lent(&self) -> Set<u64> {
        self.lent@
    }

    pub closed spec fn max_size(&self) -> nat {
        self.max_size as nat
    }

    /// Number of ids handed out so far; they are `0 .. next_id`.
    pub closed spec fn next_id(&self) -> nat {
        self.next_id as nat
    }

    pub open spec fn wf(&self) -> bool {
        &&& self.idle().no_duplicates()
        &&& self.idle().len() <= self.max_size()
        &&& forall|k: int| 0 <= k < self.idle().len() ==> {
            &&& (#[trigger] self.idle()[k]) < self.next_id()
            &&& !self.lent().contains(self.idle()[k])
        }
        &&& forall|id: u64| #[trigger] self.lent().contains(id) ==> id < self.next_id()
    }

    /// A pool holding the ids `0 .. initial_size`, which the caller builds at
    /// once, and keeping at most `max_size` idle detectors.
    pub fn new(initial_size: usize, max_size: usize) -> (r: DetectorPool)
        requires
            initial_size <= max_size,
        ensures
            r.wf(),
            r.max_size() == max_size,
            r.next_id() == initial_size,
            r.lent() == Set::<u64>::empty(),
            r.idle() == Seq::new(initial_size as nat, |k: int| k as u64),
    {
        let mut idle = empty_store();
        let mut k: usize = 0;
        while k < initial_size
            invariant
                k <= initial_size,
                stacked(idle) == Seq::new(k as nat, |j: int| j as u64),
            decreases initial_size - k,
        {
            store_put(&mut idle, k as u64);
            k = k + 1;
            assert(stacked(idle) =~= Seq::new(k as nat, |j: int| j as u64));
        }
        let r = DetectorPool { idle, max_size, next_id: initial_size as u64, lent: Ghost(Set::empty()) };
        assert(r.idle().no_duplicates());
        r
    }

    /// Number of idle detectors.
    pub fn idle_count(&self) -> (r: usize)
        ensures
            r == self.idle().len(),
    {
        store_len(&self.idle)
    }

    /// The most idle detectors the pool keeps.
    pub fn capacity(&self) -> (r: usize)
        ensures
            r == self.max_size(),
    {
        self.max_size
    }

    /// Lends the most recently returned idle detector; when none is idle,
    /// hands out a fresh id for the caller to build. Never waits.
    pub fn acquire(&mut self) -> (r: Acquired)
        requires
            old(self).wf(),
        ensures
            final(self).wf(),
            final(self).max_size() == old(self).max_size(),
            acquire_step(*old(self), *final(self), r),
    {
        match store_take(&mut self.idle) {
            Some(id) => {
                proof {
                    assert(old(self).idle()[old(self).idle().len() - 1] == id);
                    assert(id < self.next_id);
                    self.lent@ = self.lent@.insert(id);
                    assert forall|x: u64| #[trigger] self.lent@.contains(x) implies x
                        < self.next_id by {
                        if x != id {
                            assert(old(self).lent().contains(x));
                        }
                    }
                    let s = stacked(self.idle);
                    assert forall|k: int| 0 <= k < s.len() implies #[trigger] s[k] != id by {
                        assert(old(self).idle()[k] == s[k]);
                        assert(old(self).idle()[old(self).idle().len() - 1] == id);
                    }
                    assert forall|a: int, b: int|
                        0 <= a < s.len() && 0 <= b < s.len() && a != b implies s[a] != s[b] by {
                        assert(old(self).idle()[a] == s[a]);
                        assert(old(self).idle()[b] == s[b]);
                    }
                    assert forall|k: int| 0 <= k < s.len() implies #[trigger] s[k] < self.next_id
                        && !self.lent@.contains(s[k]) by {
                        assert(old(self).idle()[k] == s[k]);
                    }
                }
                Acquired::Reused(Lease { id })
            },
            None => {
                if self.next_id < u64::MAX {
                    let id = self.next_id;
                    self.next_id = self.next_id + 1;
                    proof {
                        self.lent@ = self.lent@.insert(id);
                        assert forall|x: u64| #[trigger] self.lent@.contains(x) implies x
                            < self.next_id by {
                            if x != id {
                                assert(old(self).lent().contains(x));
                            }
                        }
                    }
                    Acquired::Built(Lease { id })
                } else {
                    proof {
                        assert forall|x: u64| #[trigger] self.lent@.contains(x) implies x
                            < self.next_id by {
                            assert(old(self).lent().contains(x));
                        }
                    }
                    Acquired::Exhausted
                }
            },
        }
    }

    /// Takes a detector back: kept while fewer than `max_size` are idle,
    /// otherwise to be dropped by the caller.
    pub fn release(&mut self, lease: Lease) -> (r: Released)
        requires
            old(self).wf(),
            old(self).lent().contains(lease@),
        ensures
            final(self).wf(),
            final(self).max_size() == old(self).max_size(),
            release_step(*old(self), lease@, *final(self), r),
    {
        let id = lease.id;
        proof {
            self.lent@ = self.lent@.remove(id);
        }
        if store_len(&self.idle) < self.max_size {
            store_put(&mut self.idle, id);
            Released::Kept
        } else {
            Released::Discarded
        }
    }
}

/// What one acquisition does to the pool.
pub open spec fn acquire_step(pre: DetectorPool, post: DetectorPool, r: Acquired) -> bool {
    &&& post.max_size() == pre.max_size()
    &&& match r {
        Acquired::Reused(lease) => {
            &&& pre.idle().len() > 0
            &&& lease@ == pre.idle().last()
            &&& post.idle() == pre.idle().drop_last()
            &&& !pre.lent().contains(lease@)
            &&& post.lent() == pre.lent().insert(lease@)
            &&& post.next_id() == pre.next_id()
        },
        Acquired::Built(lease) => {
            &&& pre.idle().len() == 0
            &&& lease@ == pre.next_id()
            &&& post.next_id() == pre.next_id() + 1
            &&& post.idle() == pre.idle()
            &&& !pre.lent().contains(lease@)
            &&& post.lent() == pre.lent().insert(lease@)
        },
        Acquired::Exhausted => {
            &&& pre.idle().len() == 0
            &&& pre.next_id() == u64::MAX
            &&& post.idle() == pre.idle()
            &&& post.lent() == pre.lent()
            &&& post.next_id() == pre.next_id()
        },
    }
}

/// What one release does to the pool.
pub open spec fn release_step(pre: DetectorPool, id: u64, post: DetectorPool, r: Released) -> bool {
    &&& post.max_size() == pre.max_size()
    &&& post.next_id() == pre.next_id()
    &&& post.lent() == pre.lent().remove(id)
    &&& if pre.idle().len() < pre.max_size() {
        r == Released::Kept && post.idle() == pre.idle().push(id)
    } else {
        r == Released::Discarded && post.idle() == pre.idle()
    }
}

/// The id an acquisition lent out, if any.
pub open spec fn lent_id(r: Acquired) -> Option<u64> {
    match r {
        Acquired::Reused(lease) => Some(lease@),
        Acquired::Built(lease) => Some(lease@),
        Acquired::Exhausted => None,
    }
}

proof fn lemma_lent_kept(states: Seq<DetectorPool>, results: Seq<Acquired>, i: int, k: int)
    requires
        states.len() == results.len() + 1,
        forall|n: int|
            0 <= n < results.len() ==> acquire_step(states[n], states[n + 1], #[trigger] results[n]),
        0 <= i < k < states.len(),
        lent_id(results[i]) is Some,
    ensures
        states[k].lent().contains(lent_id(results[i])->0),
    decreases k - i,
{
    if k > i + 1 {
        lemma_lent_kept(states, results, i, k - 1);
        assert(acquire_step(states[k - 1], states[k], results[k - 1]));
    } else {
        assert(acquire_step(states[i], states[i + 1], results[i]));
    }
}

proof fn lemma_ids_grow_slowly(states: Seq<DetectorPool>, results: Seq<Acquired>, k: int)
    requires
        states.len() == results.len() + 1,
        forall|n: int|
            0 <= n < results.len() ==> acquire_step(states[n], states[n + 1], #[trigger] results[n]),
        0 <= k < states.len(),
    ensures
        states[k].next_id() <= states[0].next_id() + k,
    decreases k,
{
    if k > 0 {
        lemma_ids_grow_slowly(states, results, k - 1);
        assert(acquire_step(states[k - 1], states[k], results[k - 1]));
    }
}

/// Detectors acquired one after another, none returned in between, are
/// pairwise distinct and all still held at the end: no two holders share one.
/// While fresh ids remain, every acquisition lends a detector.
pub proof fn lemma_acquisitions_distinct(states: Seq<DetectorPool>, results: Seq<Acquired>)
    requires
        states.len() == results.len() + 1,
        forall|n: int|
            0 <= n < results.len() ==> acquire_step(states[n], states[n + 1], #[trigger] results[n]),
    ensures
        forall|i: int, j: int|
            0 <= i < j < results.len() && lent_id(#[trigger] results[i]) is Some && lent_id(
                #[trigger] results[j],
            ) is Some ==> lent_id(results[i]) != lent_id(results[j]),
        forall|i: int|
            0 <= i < results.len() && lent_id(#[trigger] results[i]) is Some ==> states.last().lent().contains(
                lent_id(results[i])->0,
            ),
        states[0].next_id() + results.len() <= u64::MAX ==> forall|i: int|
            0 <= i < results.len() ==> lent_id(#[trigger] results[i]) is Some,
{
    if states[0].next_id() + results.len() <= u64::MAX {
        assert forall|i: int| 0 <= i < results.len() implies lent_id(#[trigger] results[i]) is Some by {
            lemma_ids_grow_slowly(states, results, i);
            assert(acquire_step(states[i], states[i + 1], results[i]));
        }
    }
    assert forall|i: int, j: int|
        0 <= i < j < results.len() && lent_id(#[trigger] results[i]) is Some && lent_id(
            #[trigger] results[j],
        ) is Some implies lent_id(results[i]) != lent_id(results[j]) by {
        lemma_lent_kept(states, results, i, j);
        assert(acquire_step(states[j], states[j + 1], results[j]));
    }
    assert forall|i: int|
        0 <= i < results.len() && lent_id(#[trigger] results[i]) is Some implies states.last().lent().contains(
            lent_id(results[i])->0,
        ) by {
        lemma_lent_kept(states, results, i, states.len() - 1);
    }
}

/// However detectors are returned, a pool that starts within its bound never
/// holds more than `max_size` idle detectors.
pub proof fn lemma_releases_bounded(states: Seq<DetectorPool>, ids: Seq<u64>, results: Seq<Released>)
    requires
        states.len() == ids.len() + 1,
        results.len() == ids.len(),
        states[0].idle().len() <= states[0].max_size(),
        forall|n: int|
            0 <= n < ids.len() ==> release_step(states[n], ids[n], states[n + 1], #[trigger] results[n]),
    ensures
        forall|k: int| 0 <= k < states.len() ==> (#[trigger] states[k]).idle().len() <= states[k].max_size(),
    decreases ids.len(),
{
    if ids.len() > 0 {
        let n = ids.len() - 1;
        lemma_releases_bounded(states.drop_last(), ids.drop_last(), results.drop_last());
        assert(release_step(states[n], ids[n], states[n + 1], results[n]));
        assert forall|k: int| 0 <= k < states.len() implies (#[trigger] states[k]).idle().len()
            <= states[k].max_size() by {
            if k < n + 1 {
                assert(states.drop_last()[k] == states[k]);
            } else {
                assert(states.drop_last()[n] == states[n]);
                assert(states.drop_last()[n].idle().len() <= states.drop_last()[n].max_size());
            }
        }
    }
}

/// A detector returned to a pool with room for it is the very one the next
/// acquisition lends: reused, not rebuilt.
pub proof fn lemma_release_then_acquire(
    p0: DetectorPool,
    id: u64,
    released: Released,
    p1: DetectorPool,
    acquired: Acquired,
    p2: DetectorPool,
)
    requires
        p0.idle().len() < p0.max_size(),
        release_step(p0, id, p1, released),
        acquire_step(p1, p2, acquired),
    ensures
        released == Released::Kept,
        acquired matches Acquired::Reused(lease) && lease@ == id,
        p2.idle() == p0.idle(),
        p2.next_id() == p0.next_id(),
{
    assert(p1.idle().last() == id);
    assert(p1.idle().drop_last() =~= p0.idle());
}

} // verus!

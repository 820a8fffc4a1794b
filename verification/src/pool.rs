//! Bounded fetch pool: ordering and capacity model.
//!
//! The pool fans independent upstream fetches out to a task executor,
//! tags each task with its intended output position, and hands the
//! caller the outcomes in submission order, whatever order the tasks
//! completed in. One task's failure never aborts or perturbs its
//! siblings (bulkhead isolation). The host process owns the actual
//! task spawning; this module owns what it must guarantee: the
//! reassembly of shuffled completions, and the in-flight ceiling.

use vstd::prelude::*;
use vstd::seq_lib::*;
use vstd::set_lib::*;

verus! {

/// One completed fetch task: the submission position it was tagged
/// with, and whatever outcome the task produced.
pub struct Completion<T> {
    pub tag: usize,
    pub value: T,
}

/// No two completions claim the same output position.
pub open spec fn tags_distinct<T>(c: Seq<Completion<T>>) -> bool {
    forall|j1: int, j2: int|
        0 <= j1 < j2 < c.len() ==> (#[trigger] c[j1].tag) != (#[trigger] c[j2].tag)
}

/// Every claimed output position lies within the batch.
pub open spec fn tags_bounded<T>(c: Seq<Completion<T>>) -> bool {
    forall|j: int| 0 <= j < c.len() ==> (#[trigger] c[j].tag) < c.len()
}

/// Some completion claims output position `i`.
pub open spec fn has_tag<T>(c: Seq<Completion<T>>, i: int) -> bool {
    exists|j: int| 0 <= j < c.len() && (#[trigger] c[j].tag) == i
}

/// The index of the completion claiming output position `i`
/// (meaningful only where `has_tag(c, i)` holds; unique under
/// `tags_distinct`).
pub open spec fn tag_index<T>(c: Seq<Completion<T>>, i: int) -> int {
    choose|j: int| 0 <= j < c.len() && (#[trigger] c[j].tag) == i
}

/// The outcomes rearranged into submission order: position `i` holds
/// the value of the completion tagged `i`.
pub open spec fn in_submission_order<T>(c: Seq<Completion<T>>) -> Seq<T> {
    Seq::new(c.len(), |i: int| c[tag_index(c, i)].value)
}

/// A full batch of distinct in-range tags covers every output
/// position: there are as many tags as positions, so none is missed.
pub proof fn lemma_every_position_completed<T>(c: Seq<Completion<T>>)
    requires
        tags_distinct(c),
        tags_bounded(c),
    ensures
        forall|i: int| 0 <= i < c.len() ==> #[trigger] has_tag(c, i),
{
    let n = c.len() as int;
    let tags = Seq::new(c.len(), |j: int| c[j].tag as int);
    assert(tags.no_duplicates());
    tags.unique_seq_to_set();
    assert forall|x: int| tags.to_set().contains(x) implies set_int_range(0, n).contains(
        x,
    ) by {
        let j = choose|j: int| 0 <= j < tags.len() && tags[j] == x;
        assert(c[j].tag < n);
    }
    lemma_int_range(0, n);
    lemma_len_subset(tags.to_set(), set_int_range(0, n));
    lemma_subset_equality(tags.to_set(), set_int_range(0, n));
    assert forall|i: int| 0 <= i < n implies #[trigger] has_tag(c, i) by {
        assert(set_int_range(0, n).contains(i));
        assert(tags.to_set().contains(i));
        assert(tags.contains(i));
        let j = choose|j: int| 0 <= j < tags.len() && tags[j] == i;
        assert(0 <= j < c.len() && c[j].tag == i);
    }
}

/// Rearrange a batch of completed fetch tasks into submission order.
///
/// Accepts the completions in whatever order the tasks finished;
/// returns the outcomes ordered by the position each task was
/// submitted under. No outcome is dropped, invented or duplicated:
/// position `i` of the result is exactly what the task tagged `i`
/// produced.
pub fn reorder<T>(tasks: Vec<Completion<T>>) -> (r: Vec<T>)
    requires
        tags_distinct(tasks@),
        tags_bounded(tasks@),
    ensures
        r@ == in_submission_order(tasks@),
        r@.len() == tasks@.len(),
        forall|j: int|
            0 <= j < tasks@.len() ==> r@[tasks@[j].tag as int] == tasks@[j].value,
{
    let ghost orig = tasks@;
    let mut tasks = tasks;
    let n = tasks.len();
    let mut buf: Vec<Option<T>> = Vec::with_capacity(n);
    let mut k: usize = 0;
    while k < n
        invariant
            k <= n,
            buf@.len() == k,
            forall|i: int| 0 <= i < k ==> buf@[i] is None,
        decreases n - k,
    {
        buf.push(None);
        k = k + 1;
    }
    proof {
        assert(tasks@ =~= orig.subrange(0, tasks@.len() as int));
    }
    while tasks.len() > 0
        invariant
            n == orig.len(),
            tasks@.len() <= n,
            tasks@ == orig.subrange(0, tasks@.len() as int),
            buf@.len() == n,
            tags_distinct(orig),
            tags_bounded(orig),
            forall|j: int|
                tasks@.len() <= j < n ==> buf@[#[trigger] orig[j].tag as int]
                    == Some(orig[j].value),
            forall|j: int|
                0 <= j < tasks@.len() ==> buf@[#[trigger] orig[j].tag as int] is None,
        decreases tasks@.len(),
    {
        let ghost pre = tasks@;
        let e = tasks.pop().unwrap();
        let ghost m = pre.len() - 1;
        proof {
            assert(0 <= m < orig.len());
            assert(orig[m].tag < n);
            assert(e == pre[m]);
            assert(pre[m] == orig.subrange(0, pre.len() as int)[m]);
            assert(orig.subrange(0, pre.len() as int)[m] == orig[m]);
            assert(tasks@ == pre.subrange(0, m));
            assert forall|i: int| 0 <= i < m implies tasks@[i] == orig[i] by {
                assert(pre.subrange(0, m)[i] == pre[i]);
                assert(orig.subrange(0, pre.len() as int)[i] == orig[i]);
            }
            assert(tasks@ =~= orig.subrange(0, m));
        }
        let Completion { tag, value } = e;
        buf[tag] = Some(value);
    }
    let ghost target = in_submission_order(orig);
    proof {
        lemma_every_position_completed(orig);
        assert forall|i: int| 0 <= i < n implies buf@[i] == Some(target[i]) by {
            assert(has_tag(orig, i));
            let j = tag_index(orig, i);
            assert(0 <= j < orig.len() && orig[j].tag == i);
            assert(buf@[orig[j].tag as int] == Some(orig[j].value));
        }
    }
    let mut out: Vec<T> = Vec::with_capacity(n);
    while out.len() < n
        invariant
            n == orig.len(),
            target == in_submission_order(orig),
            target.len() == n,
            out@.len() + buf@.len() == n,
            out@ =~= target.subrange(0, out@.len() as int),
            forall|i: int|
                0 <= i < buf@.len() ==> buf@[i] == Some(target[out@.len() + i]),
        decreases n - out@.len(),
    {
        let ghost pre_out = out@;
        let x = buf.remove(0);
        match x {
            Some(v) => {
                out.push(v);
                proof {
                    assert(out@ =~= target.subrange(0, out@.len() as int));
                }
            },
            None => {
                proof {
                    assert(false);
                }
            },
        }
    }
    proof {
        assert(out@ =~= target);
        assert forall|j: int|
            0 <= j < orig.len() implies out@[orig[j].tag as int] == orig[j].value by {
            let i = orig[j].tag as int;
            assert(has_tag(orig, i));
            let j2 = tag_index(orig, i);
            assert(0 <= j2 < orig.len() && orig[j2].tag == i);
            if j2 != j {
                assert(false);
            }
        }
    }
    out
}

/// Law: the submission-order result is a function of which task
/// produced what, never of the order the tasks completed in. Two
/// completion sequences made of the same tagged outcomes, however
/// shuffled, reassemble into the same result.
pub proof fn lemma_order_independent_of_completion<T>(
    c1: Seq<Completion<T>>,
    c2: Seq<Completion<T>>,
)
    requires
        tags_distinct(c1),
        tags_bounded(c1),
        tags_distinct(c2),
        tags_bounded(c2),
        c1.len() == c2.len(),
        forall|j: int| 0 <= j < c1.len() ==> c2.contains(#[trigger] c1[j]),
    ensures
        in_submission_order(c1) == in_submission_order(c2),
{
    let n = c1.len() as int;
    assert forall|i: int|
        0 <= i < n implies in_submission_order(c1)[i] == in_submission_order(c2)[i] by {
        lemma_every_position_completed(c1);
        lemma_every_position_completed(c2);
        assert(has_tag(c1, i));
        assert(has_tag(c2, i));
        let j1 = tag_index(c1, i);
        assert(0 <= j1 < c1.len() && c1[j1].tag == i);
        let j2 = tag_index(c2, i);
        assert(0 <= j2 < c2.len() && c2[j2].tag == i);
        assert(c2.contains(c1[j1]));
        let k = choose|k: int| 0 <= k < c2.len() && c2[k] == c1[j1];
        assert(c2[k].tag == i);
        if k != j2 {
            assert(false);
        }
    }
    assert(in_submission_order(c1) =~= in_submission_order(c2));
}

/// Law: bulkhead isolation. If two completion batches agree on every
/// task except the one tagged `t` (say, in one of them that task
/// failed), every output position other than `t` is unaffected.
pub proof fn lemma_single_failure_isolated<T>(
    c1: Seq<Completion<T>>,
    c2: Seq<Completion<T>>,
    t: usize,
)
    requires
        tags_distinct(c1),
        tags_bounded(c1),
        tags_distinct(c2),
        tags_bounded(c2),
        c1.len() == c2.len(),
        forall|j: int|
            0 <= j < c1.len() && (#[trigger] c1[j].tag) != t ==> c2.contains(c1[j]),
    ensures
        forall|i: int|
            0 <= i < c1.len() && i != t ==> in_submission_order(c1)[i]
                == #[trigger] in_submission_order(c2)[i],
{
    let n = c1.len() as int;
    assert forall|i: int|
        0 <= i < n && i != t implies in_submission_order(c1)[i] == #[trigger] in_submission_order(
        c2,
    )[i] by {
        lemma_every_position_completed(c1);
        lemma_every_position_completed(c2);
        assert(has_tag(c1, i));
        assert(has_tag(c2, i));
        let j1 = tag_index(c1, i);
        assert(0 <= j1 < c1.len() && c1[j1].tag == i);
        let j2 = tag_index(c2, i);
        assert(0 <= j2 < c2.len() && c2[j2].tag == i);
        assert(c2.contains(c1[j1]));
        let k = choose|k: int| 0 <= k < c2.len() && c2[k] == c1[j1];
        assert(c2[k].tag == i);
        if k != j2 {
            assert(false);
        }
    }
}

/// The process-wide ceiling on concurrently in-flight upstream calls.
///
/// Shared across all concurrent requests, so one oversized page
/// request cannot starve the others or trip the upstream rate
/// limiter. The host acquires one slot per fetch task and releases it
/// when the task settles; the count can never pass the ceiling.
pub struct FetchPool {
    /// Maximum number of concurrently in-flight upstream calls.
    pub capacity: usize,
    /// Upstream calls currently holding a slot.
    pub in_flight: usize,
}

impl FetchPool {
    /// A pool is well formed while its in-flight count respects the
    /// ceiling.
    pub open spec fn wf(&self) -> bool {
        self.in_flight <= self.capacity
    }

    /// A fresh pool with the given ceiling and nothing in flight.
    pub fn new(capacity: usize) -> (r: FetchPool)
        ensures
            r.wf(),
            r.capacity == capacity,
            r.in_flight == 0,
    {
        FetchPool { capacity, in_flight: 0 }
    }

    /// Try to take one slot for an upstream call. Grants it exactly
    /// when a slot is free; never lets the count pass the ceiling.
    pub fn try_acquire(&mut self) -> (granted: bool)
        requires
            old(self).wf(),
        ensures
            final(self).wf(),
            final(self).capacity == old(self).capacity,
            granted == (old(self).in_flight < old(self).capacity),
            granted ==> final(self).in_flight == old(self).in_flight + 1,
            !granted ==> final(self).in_flight == old(self).in_flight,
    {
        if self.in_flight < self.capacity {
            self.in_flight = self.in_flight + 1;
            true
        } else {
            false
        }
    }

    /// Give a slot back once the call has settled (also when it
    /// failed or was discarded after a client abort).
    pub fn release(&mut self)
        requires
            old(self).wf(),
            old(self).in_flight >= 1,
        ensures
            final(self).wf(),
            final(self).capacity == old(self).capacity,
            final(self).in_flight == old(self).in_flight - 1,
    {
        self.in_flight = self.in_flight - 1;
    }
}

} // verus!

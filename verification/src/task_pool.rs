//! A bounded-concurrency task pool, modelled from the control flow's side.
//!
//! The pool tracks the work in flight; the caller performs the actual
//! asynchronous execution and feeds results back. `submit_or_drain` is the
//! wait-then-spawn discipline: when the pool is at its ceiling, one slot is
//! freed (its task's pending result is handed back) before the new work is
//! accepted, so the number of tasks in flight never exceeds the ceiling and
//! no result is ever dropped.

use vstd::prelude::*;

verus! {

pub struct TaskPool<T> {
    /// The tasks currently in flight, oldest first.
    pub running: Vec<T>,
    /// The concurrency ceiling.
    pub max_concurrent: usize,
}

impl<T> TaskPool<T> {
    /// The pool invariant: a positive ceiling that the in-flight count
    /// never exceeds.
    pub open spec fn wf(&self) -> bool {
        &&& self.max_concurrent >= 1
        &&& self.running@.len() <= self.max_concurrent
    }

    pub fn new(max_concurrent: usize) -> (r: Self)
        requires
            max_concurrent >= 1,
        ensures
            r.wf(),
            r.running@.len() == 0,
            r.max_concurrent == max_concurrent,
    {
        Self { running: Vec::new(), max_concurrent }
    }

    /// Accept one work item. Below the ceiling the item starts at once and
    /// nothing comes back; at the ceiling the oldest slot is drained first
    /// and its task handed back to the caller, then the new item starts,
    /// so the ceiling is never exceeded.
    pub fn submit_or_drain(&mut self, item: T) -> (r: Option<T>)
        requires
            old(self).wf(),
        ensures
            final(self).wf(),
            final(self).max_concurrent == old(self).max_concurrent,
            old(self).running@.len() < old(self).max_concurrent ==> r is None && final(self).running@ == old(self).running@.push(item),
            old(self).running@.len() >= old(self).max_concurrent ==> (r == Some(
                old(self).running@[0],
            ) && final(self).running@ == old(self).running@.drop_first().push(item)),
    {
        if self.running.len() >= self.max_concurrent {
            let freed = self.running.remove(0);
            self.running.push(item);
            proof {
                assert(self.running@ =~= old(self).running@.drop_first().push(item));
            }
            Some(freed)
        } else {
            self.running.push(item);
            None
        }
    }

    /// Drain every remaining task: all pending work is handed back in
    /// order, and the pool is left empty.
    pub fn drain_all(&mut self) -> (r: Vec<T>)
        requires
            old(self).wf(),
        ensures
            final(self).wf(),
            final(self).max_concurrent == old(self).max_concurrent,
            final(self).running@.len() == 0,
            r@ == old(self).running@,
    {
        let mut drained: Vec<T> = Vec::new();
        core::mem::swap(&mut drained, &mut self.running);
        proof {
            assert(self.running@ =~= Seq::<T>::empty());
        }
        drained
    }

    /// The number of tasks currently in flight.
    pub fn len(&self) -> (r: usize)
        ensures
            r == self.running@.len(),
    {
        self.running.len()
    }

    /// Whether any task is in flight.
    pub fn is_empty(&self) -> (r: bool)
        ensures
            r == (self.running@.len() == 0),
    {
        self.running.is_empty()
    }
}

/// The concurrency ceiling law: a well-formed pool never has more tasks in
/// flight than its configured ceiling, so for every ceiling N the number of
/// concurrently-running tasks is at most N at every point of a run.
pub proof fn lemma_pool_within_ceiling<T>(pool: &TaskPool<T>)
    requires
        pool.wf(),
    ensures
        pool.running@.len() <= pool.max_concurrent,
{
}

} // verus!

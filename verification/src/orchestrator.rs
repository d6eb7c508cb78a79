//! The orchestrator's decision logic and the verified run driver.
//!
//! Tasks only return outcome values; every counter and retry-queue
//! mutation happens here, on the single control flow. A failed attempt is
//! classified: recoverable failures are counted and re-queued for the
//! retry pass, permanent failures (and abnormal task terminations) go
//! straight to the permanent counter.
//!
//! `run_schedule` is the whole control skeleton run over injected
//! outcomes: the main dispatch pass through the bounded pool, the drain,
//! and the sequential retry pass. Its contract carries the accounting law
//! of a completed run.

use vstd::prelude::*;
use crate::error::{ScrapperError, spec_is_recoverable};
use crate::retry::RetryQueue;
use crate::task_pool::TaskPool;
use crate::types::ScrapingStats;

verus! {

/// How one task ended: success, a classified failure of its own error
/// path, or an abnormal termination (a fault outside the error path,
/// surfaced with its description).
pub enum TaskOutcome {
    Success,
    Failed(ScrapperError),
    Aborted(String),
}

/// Route one completed task's outcome from the main pass: successes to the
/// success counter; recoverable failures to the recoverable counter and
/// the retry queue (with a retry count of zero); permanent failures and
/// abnormal terminations to the permanent counter.
pub fn handle_task_result<K>(
    outcome: &TaskOutcome,
    item: K,
    stats: &mut ScrapingStats,
    retries: &mut RetryQueue<K>,
)
    requires
        old(stats).wf(),
        old(retries).wf(),
        old(stats).success_count + old(stats).permanent_errors < old(stats).total - old(
            stats,
        ).existing,
        old(stats).recoverable_errors < old(stats).total - old(stats).existing,
        old(stats).error_count < usize::MAX,
    ensures
        final(stats).wf(),
        final(retries).wf(),
        final(retries).max_retries == old(retries).max_retries,
        match *outcome {
            TaskOutcome::Success => *final(stats) == (ScrapingStats {
                success_count: (old(stats).success_count + 1) as usize,
                ..*old(stats)
            }) && final(retries).entries@ == old(retries).entries@,
            TaskOutcome::Failed(e) => if spec_is_recoverable(e) {
                *final(stats) == (ScrapingStats {
                    error_count: (old(stats).error_count + 1) as usize,
                    recoverable_errors: (old(stats).recoverable_errors + 1) as usize,
                    ..*old(stats)
                }) && final(retries).entries@ == old(retries).entries@.push((item, 0))
            } else {
                *final(stats) == (ScrapingStats {
                    error_count: (old(stats).error_count + 1) as usize,
                    permanent_errors: (old(stats).permanent_errors + 1) as usize,
                    ..*old(stats)
                }) && final(retries).entries@ == old(retries).entries@
            },
            TaskOutcome::Aborted(_) => *final(stats) == (ScrapingStats {
                error_count: (old(stats).error_count + 1) as usize,
                permanent_errors: (old(stats).permanent_errors + 1) as usize,
                ..*old(stats)
            }) && final(retries).entries@ == old(retries).entries@,
        },
{
    match outcome {
        TaskOutcome::Success => {
            stats.increment_success();
        },
        TaskOutcome::Failed(e) => {
            if e.is_recoverable() {
                stats.increment_recoverable_error();
                retries.push(item, 0);
            } else {
                stats.increment_permanent_error();
            }
        },
        TaskOutcome::Aborted(_) => {
            stats.increment_permanent_error();
        },
    }
}

/// Route one re-attempt's outcome from the retry pass: success to the
/// success counter; a recoverable failure back into the queue with its
/// retry count raised by one; anything else to the permanent counter.
pub fn handle_retry_result<K>(
    outcome: &TaskOutcome,
    item: K,
    attempt: usize,
    stats: &mut ScrapingStats,
    retries: &mut RetryQueue<K>,
)
    requires
        old(stats).wf(),
        old(retries).wf(),
        attempt < old(retries).max_retries,
        old(stats).success_count + old(stats).permanent_errors < old(stats).total - old(
            stats,
        ).existing,
        old(stats).error_count < usize::MAX,
    ensures
        final(stats).wf(),
        final(retries).wf(),
        final(retries).max_retries == old(retries).max_retries,
        match *outcome {
            TaskOutcome::Success => *final(stats) == (ScrapingStats {
                success_count: (old(stats).success_count + 1) as usize,
                ..*old(stats)
            }) && final(retries).entries@ == old(retries).entries@,
            TaskOutcome::Failed(e) => if spec_is_recoverable(e) {
                *final(stats) == *old(stats) && final(retries).entries@ == old(
                    retries,
                ).entries@.push((item, (attempt + 1) as usize))
            } else {
                *final(stats) == (ScrapingStats {
                    error_count: (old(stats).error_count + 1) as usize,
                    permanent_errors: (old(stats).permanent_errors + 1) as usize,
                    ..*old(stats)
                }) && final(retries).entries@ == old(retries).entries@
            },
            TaskOutcome::Aborted(_) => *final(stats) == (ScrapingStats {
                error_count: (old(stats).error_count + 1) as usize,
                permanent_errors: (old(stats).permanent_errors + 1) as usize,
                ..*old(stats)
            }) && final(retries).entries@ == old(retries).entries@,
        },
{
    match outcome {
        TaskOutcome::Success => {
            stats.increment_success();
        },
        TaskOutcome::Failed(e) => {
            if e.is_recoverable() {
                retries.push(item, attempt + 1);
            } else {
                stats.increment_permanent_error();
            }
        },
        TaskOutcome::Aborted(_) => {
            stats.increment_permanent_error();
        },
    }
}

/// One record's part in a run: whether its output already exists, and the
/// outcome each successive attempt would produce (index 0 for the first
/// attempt, index `k` for the `k`-th retry).
pub struct ItemPlan {
    pub exists: bool,
    pub attempts: Vec<TaskOutcome>,
}

/// How many records of the plan are skipped because their output already
/// exists.
pub open spec fn spec_count_existing(plans: Seq<ItemPlan>) -> nat
    decreases plans.len(),
{
    if plans.len() == 0 {
        0
    } else {
        spec_count_existing(plans.drop_last()) + if plans.last().exists {
            1nat
        } else {
            0nat
        }
    }
}

/// Termination measure of the retry pass: the retries still available to
/// the queued entries, plus one per entry.
pub open spec fn retry_measure<T>(entries: Seq<(T, usize)>, max_retries: nat) -> nat
    decreases entries.len(),
{
    if entries.len() == 0 {
        0
    } else {
        retry_measure(entries.drop_last(), max_retries) + (if entries.last().1 <= max_retries {
            (max_retries + 1 - entries.last().1) as nat
        } else {
            0nat
        })
    }
}

/// Run the whole control skeleton over a plan of injected outcomes: skip
/// records whose output exists, dispatch the rest through a pool bounded
/// by `max_concurrent`, drain the pool, then resolve the retry queue
/// sequentially, giving an item up as permanent once it has been retried
/// `max_retries` times.
///
/// Each plan carries exactly one outcome per allowed attempt — the first
/// attempt and `max_retries` retries — and that suffices for the whole
/// run: no item is ever attempted more often.
///
/// The contract carries the accounting law of a completed run: every
/// record is resolved exactly once, so the skipped, succeeded and
/// permanently failed records together number the whole plan.
pub fn run_schedule(plans: &Vec<ItemPlan>, max_concurrent: usize, max_retries: usize) -> (stats:
    ScrapingStats)
    requires
        max_concurrent >= 1,
        2 * plans@.len() <= usize::MAX,
        max_retries < usize::MAX,
        forall|k: int|
            0 <= k < plans@.len() ==> (#[trigger] plans@[k]).attempts@.len() == max_retries + 1,
    ensures
        stats.wf(),
        stats.total == plans@.len(),
        stats.existing == spec_count_existing(plans@),
        stats.existing + stats.success_count + stats.permanent_errors == stats.total,
        stats.error_count == stats.recoverable_errors + stats.permanent_errors,
{
    let total = plans.len();
    let mut stats = ScrapingStats::default();
    stats.total = total;
    let mut pool = TaskPool::<usize>::new(max_concurrent);
    let mut retries = RetryQueue::<usize>::new(max_retries);
    let mut i: usize = 0;
    proof {
        assert(plans@.take(0) =~= Seq::<ItemPlan>::empty());
    }
    while i < total
        invariant
            i <= total,
            total == plans@.len(),
            2 * total <= usize::MAX,
            max_retries < usize::MAX,
            forall|k: int|
                0 <= k < plans@.len() ==> (#[trigger] plans@[k]).attempts@.len() == max_retries
                    + 1,
            pool.wf(),
            pool.max_concurrent == max_concurrent,
            retries.wf(),
            retries.max_retries == max_retries,
            stats.wf(),
            stats.total == total,
            stats.existing == spec_count_existing(plans@.take(i as int)),
            stats.existing + stats.success_count + stats.permanent_errors + pool.running@.len()
                + retries.entries@.len() == i,
            stats.recoverable_errors <= stats.success_count + stats.permanent_errors
                + retries.entries@.len(),
            forall|k: int| 0 <= k < pool.running@.len() ==> #[trigger] pool.running@[k] < total,
            forall|k: int|
                0 <= k < retries.entries@.len() ==> (#[trigger] retries.entries@[k]).0 < total,
        decreases total - i,
    {
        proof {
            assert(plans@.take(i + 1).drop_last() =~= plans@.take(i as int));
            assert(plans@.take(i + 1).last() == plans@[i as int]);
        }
        if plans[i].exists {
            stats.existing = stats.existing + 1;
        } else {
            match pool.submit_or_drain(i) {
                Some(done) => {
                    let outcome = &plans[done].attempts[0];
                    handle_task_result(outcome, done, &mut stats, &mut retries);
                },
                None => {},
            }
        }
        i = i + 1;
    }
    proof {
        assert(plans@.take(total as int) =~= plans@);
    }
    let drained = pool.drain_all();
    let mut d: usize = 0;
    while d < drained.len()
        invariant
            d <= drained@.len(),
            total == plans@.len(),
            2 * total <= usize::MAX,
            max_retries < usize::MAX,
            forall|k: int|
                0 <= k < plans@.len() ==> (#[trigger] plans@[k]).attempts@.len() == max_retries
                    + 1,
            retries.wf(),
            retries.max_retries == max_retries,
            stats.wf(),
            stats.total == total,
            stats.existing == spec_count_existing(plans@),
            stats.existing + stats.success_count + stats.permanent_errors + (drained@.len() - d)
                + retries.entries@.len() == total,
            stats.recoverable_errors <= stats.success_count + stats.permanent_errors
                + retries.entries@.len(),
            forall|k: int| 0 <= k < drained@.len() ==> #[trigger] drained@[k] < total,
            forall|k: int|
                0 <= k < retries.entries@.len() ==> (#[trigger] retries.entries@[k]).0 < total,
        decreases drained@.len() - d,
    {
        let done = drained[d];
        let outcome = &plans[done].attempts[0];
        handle_task_result(outcome, done, &mut stats, &mut retries);
        d = d + 1;
    }
    while !retries.is_empty()
        invariant
            total == plans@.len(),
            2 * total <= usize::MAX,
            max_retries < usize::MAX,
            forall|k: int|
                0 <= k < plans@.len() ==> (#[trigger] plans@[k]).attempts@.len() == max_retries
                    + 1,
            retries.wf(),
            retries.max_retries == max_retries,
            stats.wf(),
            stats.total == total,
            stats.existing == spec_count_existing(plans@),
            stats.existing + stats.success_count + stats.permanent_errors
                + retries.entries@.len() == total,
            stats.recoverable_errors <= stats.success_count + stats.permanent_errors
                + retries.entries@.len(),
            forall|k: int|
                0 <= k < retries.entries@.len() ==> (#[trigger] retries.entries@[k]).0 < total,
        decreases retry_measure(retries.entries@, max_retries as nat),
    {
        let ghost q0 = retries.entries@;
        match retries.pop_one() {
            Some((item, attempt)) => {
                let ghost q1 = retries.entries@;
                proof {
                    assert(retry_measure(q0, max_retries as nat) == retry_measure(
                        q1,
                        max_retries as nat,
                    ) + (max_retries + 1 - attempt));
                }
                if attempt >= max_retries {
                    stats.increment_permanent_error();
                } else {
                    let outcome = &plans[item].attempts[attempt + 1];
                    handle_retry_result(outcome, item, attempt, &mut stats, &mut retries);
                    proof {
                        let pushed = q1.push((item, (attempt + 1) as usize));
                        assert(pushed.drop_last() =~= q1);
                        assert(retry_measure(pushed, max_retries as nat) == retry_measure(
                            q1,
                            max_retries as nat,
                        ) + (max_retries - attempt));
                    }
                }
            },
            None => {
                proof {
                    assert(false);
                }
            },
        }
    }
    stats
}

} // verus!

//! The exponential-backoff retry queue.
//!
//! Recoverable failures are queued with the number of retries already
//! performed. Entries come back out in last-in-first-out order — order
//! does not affect correctness, only latency. Before each re-attempt the
//! caller sleeps `base * 2^attempt` milliseconds, and an entry whose
//! attempt count has reached the retry ceiling is never re-queued: it is
//! counted as a permanent error instead.

use vstd::prelude::*;
use vstd::arithmetic::power2::{lemma2_to64, lemma_pow2_pos, lemma_pow2_strictly_increases, pow2};

verus! {

pub struct RetryQueue<T> {
    /// The queued entries: a work item and the number of retries it has
    /// already been given.
    pub entries: Vec<(T, usize)>,
    /// The retry ceiling: no item is retried more often than this.
    pub max_retries: usize,
}

impl<T> RetryQueue<T> {
    /// The queue invariant: no entry has been retried beyond the ceiling.
    pub open spec fn wf(&self) -> bool {
        forall|k: int|
            0 <= k < self.entries@.len() ==> (#[trigger] self.entries@[k]).1 <= self.max_retries
    }

    pub fn new(max_retries: usize) -> (r: Self)
        ensures
            r.wf(),
            r.entries@.len() == 0,
            r.max_retries == max_retries,
    {
        Self { entries: Vec::new(), max_retries }
    }

    /// Queue one item with its retry count so far.
    pub fn push(&mut self, item: T, attempt: usize)
        requires
            old(self).wf(),
            attempt <= old(self).max_retries,
        ensures
            final(self).wf(),
            final(self).max_retries == old(self).max_retries,
            final(self).entries@ == old(self).entries@.push((item, attempt)),
    {
        self.entries.push((item, attempt));
    }

    /// Take one entry out, most recently queued first; nothing when the
    /// queue is empty.
    pub fn pop_one(&mut self) -> (r: Option<(T, usize)>)
        requires
            old(self).wf(),
        ensures
            final(self).wf(),
            final(self).max_retries == old(self).max_retries,
            old(self).entries@.len() == 0 ==> r is None && final(self).entries@ == old(
                self,
            ).entries@,
            old(self).entries@.len() > 0 ==> (r == Some(old(self).entries@.last()) && final(self).entries@ == old(self).entries@.drop_last()),
            r matches Some(entry) ==> entry.1 <= old(self).max_retries,
    {
        self.entries.pop()
    }

    /// The number of queued entries.
    pub fn len(&self) -> (r: usize)
        ensures
            r == self.entries@.len(),
    {
        self.entries.len()
    }

    /// Whether the queue is empty.
    pub fn is_empty(&self) -> (r: bool)
        ensures
            r == (self.entries@.len() == 0),
    {
        self.entries.is_empty()
    }
}

/// Delay in milliseconds before a retry, growing exponentially with the
/// number of retries already performed: `base * 2^attempt`. The first
/// retry (attempt 0) sleeps `base`, the Nth retry `base * 2^(N-1)`.
pub fn backoff_delay_ms(base: u64, attempt: u64) -> (delay: u64)
    requires
        attempt < 64,
        base * pow2(attempt as nat) <= u64::MAX,
    ensures
        delay == base * pow2(attempt as nat),
{
    proof {
        lemma_pow2_pos(attempt as nat);
        lemma2_to64();
        vstd::arithmetic::power2::lemma2_to64_rest();
        if attempt < 63 {
            lemma_pow2_strictly_increases(attempt as nat, 63);
        }
    }
    let factor: u64 = 1u64 << attempt;
    proof {
        vstd::bits::lemma_u64_shl_is_mul(1u64, attempt);
    }
    base * factor
}

/// Backoff monotonicity: a later retry never sleeps less than an earlier
/// one, and with a positive base it sleeps strictly longer.
pub proof fn lemma_backoff_monotonic(base: u64, a1: nat, a2: nat)
    requires
        a1 < a2,
        a2 < 64,
    ensures
        base * pow2(a1) <= base * pow2(a2),
        base > 0 ==> base * pow2(a1) < base * pow2(a2),
{
    lemma_pow2_strictly_increases(a1, a2);
    vstd::arithmetic::mul::lemma_mul_inequality(pow2(a1) as int, pow2(a2) as int, base as int);
    vstd::arithmetic::mul::lemma_mul_is_commutative(base as int, pow2(a1) as int);
    vstd::arithmetic::mul::lemma_mul_is_commutative(base as int, pow2(a2) as int);
    if base > 0 {
        vstd::arithmetic::mul::lemma_mul_strict_inequality(
            pow2(a1) as int,
            pow2(a2) as int,
            base as int,
        );
    }
}

} // verus!

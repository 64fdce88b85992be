//! FIFO of sealed batches awaiting submission. Batches leave in the order
//! they entered; a re-enqueued batch joins the tail, behind everything
//! enqueued before its retry.

use vstd::prelude::*;

use crate::types::{Batch, QueueStats};

verus! {

/// Total deposits held by the queued batches, in queue order.
pub open spec fn spec_total_deposits(batches: Seq<Batch>) -> int
    decreases batches.len(),
{
    if batches.len() == 0 {
        0
    } else {
        batches[0].deposits@.len() + spec_total_deposits(batches.drop_first())
    }
}

/// Appending a batch adds its deposits to the total.
pub proof fn lemma_total_deposits_push(batches: Seq<Batch>, b: Batch)
    ensures
        spec_total_deposits(batches.push(b)) == spec_total_deposits(batches) + b.deposits@.len(),
    decreases batches.len(),
{
    let pushed = batches.push(b);
    assert(pushed.len() == batches.len() + 1);
    assert(spec_total_deposits(pushed) == pushed[0].deposits@.len() + spec_total_deposits(pushed.drop_first()));
    if batches.len() == 0 {
        assert(pushed[0] == b);
        assert(pushed.drop_first() =~= Seq::<Batch>::empty());
        assert(spec_total_deposits(pushed.drop_first()) == 0);
    } else {
        assert(pushed[0] == batches[0]);
        assert(pushed.drop_first() =~= batches.drop_first().push(b));
        lemma_total_deposits_push(batches.drop_first(), b);
        assert(spec_total_deposits(batches) == batches[0].deposits@.len() + spec_total_deposits(batches.drop_first()));
    }
}

/// The total is never negative.
pub proof fn lemma_total_deposits_nonneg(batches: Seq<Batch>)
    ensures
        spec_total_deposits(batches) >= 0,
    decreases batches.len(),
{
    if batches.len() > 0 {
        lemma_total_deposits_nonneg(batches.drop_first());
    }
}

pub struct QueueManager {
    pub batches: Vec<Batch>,
}

impl QueueManager {
    /// The queue never holds more deposits than a count can carry.
    pub open spec fn wf(self) -> bool {
        spec_total_deposits(self.batches@) <= usize::MAX
    }

    pub fn new() -> (r: Self)
        ensures
            r.wf(),
            r.batches@.len() == 0,
    {
        Self { batches: Vec::new() }
    }

    /// Appends a sealed batch at the tail.
    pub fn enqueue_batch(&mut self, batch: Batch)
        requires
            old(self).wf(),
            spec_total_deposits(old(self).batches@) + batch.deposits@.len() <= usize::MAX,
        ensures
            final(self).wf(),
            final(self).batches@ == old(self).batches@.push(batch),
    {
        proof {
            lemma_total_deposits_push(self.batches@, batch);
        }
        self.batches.push(batch);
    }

    /// Removes and returns the head of the queue, or `None` when empty.
    pub fn dequeue_batch(&mut self) -> (r: Option<Batch>)
        requires
            old(self).wf(),
        ensures
            final(self).wf(),
            if old(self).batches@.len() == 0 {
                r is None && *final(self) == *old(self)
            } else {
                r == Some(old(self).batches@[0])
                    && final(self).batches@ == old(self).batches@.drop_first()
            },
    {
        if self.batches.is_empty() {
            None
        } else {
            let b = self.batches.remove(0);
            proof {
                assert(self.batches@ =~= old(self).batches@.drop_first());
                lemma_total_deposits_push_inverse(old(self).batches@);
            }
            Some(b)
        }
    }

    /// Reports the queued work in deposit units: `pending` and `total` are
    /// the sum of the queued batches' sizes.
    pub fn get_queue_stats(&self) -> (r: QueueStats)
        requires
            self.wf(),
        ensures
            r.pending == spec_total_deposits(self.batches@),
            r.processing == 0,
            r.completed == 0,
            r.total == spec_total_deposits(self.batches@),
    {
        let mut total_deposits: usize = 0;
        let n = self.batches.len();
        proof {
            lemma_total_deposits_prefix(self.batches@, 0);
        }
        for i in 0..n
            invariant
                n == self.batches@.len(),
                spec_total_deposits(self.batches@) <= usize::MAX,
                total_deposits == spec_total_deposits(self.batches@.take(i as int)),
        {
            proof {
                lemma_total_deposits_push(self.batches@.take(i as int), self.batches@[i as int]);
                assert(self.batches@.take(i + 1) =~= self.batches@.take(i as int).push(self.batches@[i as int]));
                lemma_total_deposits_prefix(self.batches@, i + 1);
                lemma_total_deposits_nonneg(self.batches@.take(i as int));
            }
            total_deposits = total_deposits + self.batches[i].deposits.len();
        }
        proof {
            assert(self.batches@.take(n as int) =~= self.batches@);
        }
        QueueStats {
            pending: total_deposits,
            processing: 0,
            completed: 0,
            total: total_deposits,
        }
    }
}

/// Dropping the head cannot increase the total.
pub proof fn lemma_total_deposits_push_inverse(batches: Seq<Batch>)
    requires
        batches.len() > 0,
    ensures
        spec_total_deposits(batches.drop_first()) <= spec_total_deposits(batches),
{
    lemma_total_deposits_nonneg(batches.drop_first());
}

/// A prefix of the queue never holds more deposits than the whole queue.
pub proof fn lemma_total_deposits_prefix(batches: Seq<Batch>, i: int)
    requires
        0 <= i <= batches.len(),
    ensures
        spec_total_deposits(batches.take(i)) <= spec_total_deposits(batches),
    decreases batches.len() - i,
{
    if i < batches.len() {
        lemma_total_deposits_push(batches.take(i), batches[i]);
        assert(batches.take(i + 1) =~= batches.take(i).push(batches[i]));
        lemma_total_deposits_prefix(batches, i + 1);
    } else {
        assert(batches.take(i) =~= batches);
    }
}

} // verus!
